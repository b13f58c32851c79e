use vstd::prelude::*;

verus! {

/// Identity of a subscriber: the 128 bits of its UUID.
#[derive(Clone, Copy, Debug, PartialEq, Eq, Structural)]
pub struct SubscriberId {
    pub value: u128,
}

/// Confirmation status of a subscriber. `Confirmed` is terminal.
#[derive(Clone, Copy, Debug, PartialEq, Eq, Structural)]
pub enum SubscriptionStatus {
    Pending,
    Confirmed,
}

/// An opaque confirmation token, as handed out in a confirmation link.
#[derive(Clone, Debug)]
pub struct TokenValue {
    pub value: String,
}

impl View for TokenValue {
    type V = Seq<char>;

    open spec fn view(&self) -> Seq<char> {
        self.value@
    }
}

impl TokenValue {
    pub fn new(value: String) -> (r: TokenValue)
        ensures
            r@ == value@,
    {
        TokenValue { value }
    }

    pub fn as_str(&self) -> (r: &str)
        ensures
            r@ == self@,
    {
        self.value.as_str()
    }
}

/// A failure of the persistence layer (lost connection, timeout, violated
/// constraint), with the layer's own description of it.
#[derive(Clone, Debug)]
pub struct StoreError {
    pub message: String,
}

impl StoreError {
    pub fn new(message: String) -> (r: StoreError)
        ensures
            r.message@ == message@,
    {
        StoreError { message }
    }
}

} // verus!
