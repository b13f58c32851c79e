use vstd::prelude::*;

use crate::domain::{SubscriberId, SubscriptionStatus, TokenValue};

verus! {

/// The subscriber that `tokens` maps `token` to, if any.
pub open spec fn lookup(tokens: Map<Seq<char>, SubscriberId>, token: Seq<char>) -> Option<SubscriberId> {
    if tokens.contains_key(token) {
        Some(tokens[token])
    } else {
        None
    }
}

/// The token map after an attempt to issue `token` for `id`: a token that is
/// already in use keeps its subscriber.
pub open spec fn issued(
    tokens: Map<Seq<char>, SubscriberId>,
    token: Seq<char>,
    id: SubscriberId,
) -> Map<Seq<char>, SubscriberId> {
    if tokens.contains_key(token) {
        tokens
    } else {
        tokens.insert(token, id)
    }
}

/// The subscriber map after `id` is marked confirmed: an unknown identity
/// changes nothing.
pub open spec fn marked(
    subscribers: Map<SubscriberId, SubscriptionStatus>,
    id: SubscriberId,
) -> Map<SubscriberId, SubscriptionStatus> {
    if subscribers.contains_key(id) {
        subscribers.insert(id, SubscriptionStatus::Confirmed)
    } else {
        subscribers
    }
}

/// A token that has been issued keeps resolving to the same subscriber,
/// whatever token is issued afterwards.
pub proof fn lemma_token_identity_stable(
    tokens: Map<Seq<char>, SubscriberId>,
    token: Seq<char>,
    other: Seq<char>,
    id: SubscriberId,
)
    requires
        tokens.contains_key(token),
    ensures
        lookup(issued(tokens, other, id), token) == lookup(tokens, token),
{
}

/// One issued token and the subscriber it belongs to.
#[derive(Clone, Debug)]
pub struct TokenRecord {
    pub token: String,
    pub subscriber_id: SubscriberId,
}

/// Mapping from confirmation token to subscriber identity; each token maps to
/// exactly one subscriber.
pub struct TokenStore {
    records: Vec<TokenRecord>,
    contents: Ghost<Map<Seq<char>, SubscriberId>>,
}

impl View for TokenStore {
    type V = Map<Seq<char>, SubscriberId>;

    closed spec fn view(&self) -> Map<Seq<char>, SubscriberId> {
        self.contents@
    }
}

impl TokenStore {
    /// The records agree with the map: each record is an entry of it, and each
    /// entry has a record.
    pub closed spec fn wf(&self) -> bool {
        &&& forall|i: int|
            0 <= i < self.records@.len() ==> {
                &&& #[trigger] self.contents@.contains_key(self.records@[i].token@)
                &&& self.contents@[self.records@[i].token@] == self.records@[i].subscriber_id
            }
        &&& forall|t: Seq<char>|
            #[trigger] self.contents@.contains_key(t) ==> exists|i: int|
                0 <= i < self.records@.len() && #[trigger] self.records@[i].token@ == t
    }

    pub fn new() -> (r: TokenStore)
        ensures
            r.wf(),
            r@ == Map::<Seq<char>, SubscriberId>::empty(),
    {
        TokenStore { records: Vec::new(), contents: Ghost(Map::empty()) }
    }

    /// The subscriber that `token` was issued for, or `None` where it was
    /// never issued. No side effects.
    pub fn resolve(&self, token: &TokenValue) -> (r: Option<SubscriberId>)
        requires
            self.wf(),
        ensures
            r == lookup(self@, token@),
    {
        let n = self.records.len();
        let mut i: usize = 0;
        while i < n
            invariant
                self.wf(),
                n == self.records@.len(),
                0 <= i <= n,
                forall|j: int| 0 <= j < i ==> self.records@[j].token@ != token@,
            decreases n - i,
        {
            if self.records[i].token == token.value {
                return Some(self.records[i].subscriber_id);
            }
            i = i + 1;
        }
        proof {
            if self@.contains_key(token@) {
                let j = choose|j: int| 0 <= j < self.records@.len() && #[trigger] self.records@[j].token@ == token@;
                assert(self.records@[j].token@ == token@);
            }
        }
        None
    }

    /// Issues `token` for `id`. Returns `false`, and changes nothing, where the
    /// token is already in use: tokens are unique.
    pub fn issue(&mut self, token: TokenValue, id: SubscriberId) -> (r: bool)
        requires
            old(self).wf(),
        ensures
            final(self).wf(),
            r == !old(self)@.contains_key(token@),
            final(self)@ == issued(old(self)@, token@, id),
    {
        if self.resolve(&token).is_some() {
            return false;
        }
        let ghost t = token@;
        let ghost before = self.records@;
        self.records.push(TokenRecord { token: token.value, subscriber_id: id });
        self.contents = Ghost(self.contents@.insert(t, id));
        proof {
            assert forall|i: int| 0 <= i < self.records@.len() implies {
                &&& #[trigger] self.contents@.contains_key(self.records@[i].token@)
                &&& self.contents@[self.records@[i].token@] == self.records@[i].subscriber_id
            } by {
                if i < before.len() {
                    assert(self.records@[i] == before[i]);
                }
            }
            assert forall|u: Seq<char>| #[trigger] self.contents@.contains_key(u) implies exists|i: int|
                0 <= i < self.records@.len() && #[trigger] self.records@[i].token@ == u by {
                if u == t {
                    assert(self.records@[before.len() as int].token@ == u);
                } else {
                    let j = choose|j: int| 0 <= j < before.len() && #[trigger] before[j].token@ == u;
                    assert(self.records@[j] == before[j]);
                }
            }
        }
        true
    }
}

/// One subscriber and its confirmation status.
#[derive(Clone, Copy, Debug, PartialEq, Eq, Structural)]
pub struct SubscriberRecord {
    pub id: SubscriberId,
    pub status: SubscriptionStatus,
}

/// The subscribers and their confirmation status.
pub struct SubscriberStore {
    records: Vec<SubscriberRecord>,
    contents: Ghost<Map<SubscriberId, SubscriptionStatus>>,
}

impl View for SubscriberStore {
    type V = Map<SubscriberId, SubscriptionStatus>;

    closed spec fn view(&self) -> Map<SubscriberId, SubscriptionStatus> {
        self.contents@
    }
}

impl SubscriberStore {
    /// The records agree with the map: each record is an entry of it, and each
    /// entry has a record.
    pub closed spec fn wf(&self) -> bool {
        &&& forall|i: int|
            0 <= i < self.records@.len() ==> {
                &&& self.contents@.contains_key(#[trigger] self.records@[i].id)
                &&& self.contents@[self.records@[i].id] == self.records@[i].status
            }
        &&& forall|id: SubscriberId|
            #[trigger] self.contents@.contains_key(id) ==> exists|i: int|
                0 <= i < self.records@.len() && #[trigger] self.records@[i].id == id
    }

    pub fn new() -> (r: SubscriberStore)
        ensures
            r.wf(),
            r@ == Map::<SubscriberId, SubscriptionStatus>::empty(),
    {
        SubscriberStore { records: Vec::new(), contents: Ghost(Map::empty()) }
    }

    /// The status of subscriber `id`, or `None` where there is no such
    /// subscriber.
    pub fn status(&self, id: SubscriberId) -> (r: Option<SubscriptionStatus>)
        requires
            self.wf(),
        ensures
            r == (if self@.contains_key(id) { Some(self@[id]) } else { None::<SubscriptionStatus> }),
    {
        let n = self.records.len();
        let mut i: usize = 0;
        while i < n
            invariant
                self.wf(),
                n == self.records@.len(),
                0 <= i <= n,
                forall|j: int| 0 <= j < i ==> self.records@[j].id != id,
            decreases n - i,
        {
            if self.records[i].id == id {
                return Some(self.records[i].status);
            }
            i = i + 1;
        }
        proof {
            if self@.contains_key(id) {
                let j = choose|j: int| 0 <= j < self.records@.len() && #[trigger] self.records@[j].id == id;
                assert(self.records@[j].id == id);
            }
        }
        None
    }

    /// Adds subscriber `id` with status `Pending`. Returns `false`, and changes
    /// nothing, where the identity is already taken.
    pub fn add_pending(&mut self, id: SubscriberId) -> (r: bool)
        requires
            old(self).wf(),
        ensures
            final(self).wf(),
            r == !old(self)@.contains_key(id),
            final(self)@ == (if r { old(self)@.insert(id, SubscriptionStatus::Pending) } else { old(self)@ }),
    {
        if self.status(id).is_some() {
            return false;
        }
        let ghost before = self.records@;
        self.records.push(SubscriberRecord { id, status: SubscriptionStatus::Pending });
        self.contents = Ghost(self.contents@.insert(id, SubscriptionStatus::Pending));
        proof {
            assert forall|i: int| 0 <= i < self.records@.len() implies {
                &&& self.contents@.contains_key(#[trigger] self.records@[i].id)
                &&& self.contents@[self.records@[i].id] == self.records@[i].status
            } by {
                if i < before.len() {
                    assert(self.records@[i] == before[i]);
                }
            }
            assert forall|u: SubscriberId| #[trigger] self.contents@.contains_key(u) implies exists|i: int|
                0 <= i < self.records@.len() && #[trigger] self.records@[i].id == u by {
                if u == id {
                    assert(self.records@[before.len() as int].id == u);
                } else {
                    let j = choose|j: int| 0 <= j < before.len() && #[trigger] before[j].id == u;
                    assert(self.records@[j] == before[j]);
                }
            }
        }
        true
    }

    /// Sets the status of subscriber `id` to `Confirmed`. Calling it again, or
    /// on a subscriber that is already confirmed, changes nothing; an unknown
    /// identity changes nothing either.
    pub fn mark_confirmed(&mut self, id: SubscriberId)
        requires
            old(self).wf(),
        ensures
            final(self).wf(),
            final(self)@ == marked(old(self)@, id),
    {
        let ghost before = self.records@;
        let n = self.records.len();
        let mut i: usize = 0;
        while i < n
            invariant
                n == self.records@.len(),
                before.len() == n,
                0 <= i <= n,
                self.contents@ == old(self).contents@,
                forall|j: int| 0 <= j < n ==> #[trigger] self.records@[j].id == before[j].id,
                forall|j: int|
                    0 <= j < i && before[j].id == id ==> #[trigger] self.records@[j].status
                        == SubscriptionStatus::Confirmed,
                forall|j: int| 0 <= j < n && !(j < i && before[j].id == id) ==> #[trigger] self.records@[j] == before[j],
            decreases n - i,
        {
            if self.records[i].id == id {
                self.records.set(i, SubscriberRecord { id, status: SubscriptionStatus::Confirmed });
            }
            i = i + 1;
        }
        self.contents = Ghost(marked(self.contents@, id));
        proof {
            let m = old(self)@;
            assert forall|k: int| 0 <= k < self.records@.len() implies {
                &&& self.contents@.contains_key(#[trigger] self.records@[k].id)
                &&& self.contents@[self.records@[k].id] == self.records@[k].status
            } by {
                assert(self.records@[k].id == before[k].id);
                assert(m.contains_key(before[k].id));
            }
            assert forall|u: SubscriberId| #[trigger] self.contents@.contains_key(u) implies exists|k: int|
                0 <= k < self.records@.len() && #[trigger] self.records@[k].id == u by {
                let j = choose|j: int| 0 <= j < before.len() && #[trigger] before[j].id == u;
                assert(self.records@[j].id == before[j].id);
            }
        }
    }
}

} // verus!
