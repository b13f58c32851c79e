use vstd::prelude::*;

use crate::domain::{StoreError, SubscriberId, SubscriptionStatus, TokenValue};
use crate::store::{lookup, marked, SubscriberStore, TokenStore};

verus! {

/// The query of a confirmation request: `?subscription_token=<token>`.
#[derive(Clone, Debug)]
pub struct Parameters {
    pub subscription_token: String,
}

impl Parameters {
    pub fn new(subscription_token: String) -> (r: Parameters)
        ensures
            r.subscription_token@ == subscription_token@,
    {
        Parameters { subscription_token }
    }
}

/// Why a request was turned away before it reached the confirmation service.
#[derive(Clone, Copy, Debug, PartialEq, Eq, Structural)]
pub enum QueryError {
    MissingToken,
    EmptyToken,
}

impl QueryError {
    /// The HTTP status of a malformed request: 400 Bad Request.
    pub fn status_code(&self) -> (r: u16)
        ensures
            r == 400,
    {
        400
    }
}

/// What a successful confirmation reports.
#[derive(Clone, Copy, Debug, PartialEq, Eq, Structural)]
pub enum ConfirmationOutcome {
    Confirmed,
}

/// The store operation during which an unexpected failure happened.
#[derive(Clone, Copy, Debug, PartialEq, Eq, Structural)]
pub enum FailedStep {
    TokenLookup,
    MarkConfirmed,
}

impl FailedStep {
    /// The context that is attached to the underlying store error.
    pub fn context(&self) -> (r: &'static str)
        ensures
            r@ == (match self {
                FailedStep::TokenLookup => "Failed to get subscriber token."@,
                FailedStep::MarkConfirmed => "could not confirm subscriber in the database."@,
            }),
    {
        match self {
            FailedStep::TokenLookup => "Failed to get subscriber token.",
            FailedStep::MarkConfirmed => "could not confirm subscriber in the database.",
        }
    }
}

/// Failure of a confirmation: the token does not resolve, or the store failed.
#[derive(Clone, Debug)]
pub enum ConfirmError {
    UnauthorisedError,
    UnexpectedError(FailedStep, StoreError),
}

impl ConfirmError {
    /// 401 Unauthorized for an unknown token, 500 Internal Server Error for a
    /// store failure.
    pub fn status_code(&self) -> (r: u16)
        ensures
            r == (match self {
                ConfirmError::UnauthorisedError => 401u16,
                ConfirmError::UnexpectedError(..) => 500u16,
            }),
    {
        match self {
            ConfirmError::UnauthorisedError => 401,
            ConfirmError::UnexpectedError(..) => 500,
        }
    }
}

/// The HTTP status that answers a confirmation: 200 OK on success, else the
/// status of the error.
pub open spec fn response_status_of(r: Result<ConfirmationOutcome, ConfirmError>) -> u16 {
    match r {
        Ok(_) => 200,
        Err(ConfirmError::UnauthorisedError) => 401,
        Err(ConfirmError::UnexpectedError(..)) => 500,
    }
}

pub fn response_status(r: &Result<ConfirmationOutcome, ConfirmError>) -> (s: u16)
    ensures
        s == response_status_of(*r),
{
    match r {
        Ok(_) => 200,
        Err(e) => e.status_code(),
    }
}

/// The token of a request, where the query carries a non-empty one.
pub fn token_from_query(query: Option<Parameters>) -> (r: Result<TokenValue, QueryError>)
    ensures
        query is None ==> r == Err::<TokenValue, QueryError>(QueryError::MissingToken),
        query is Some && query->Some_0.subscription_token@.len() == 0 ==> r == Err::<TokenValue, QueryError>(QueryError::EmptyToken),
        query is Some && query->Some_0.subscription_token@.len() > 0 ==> r is Ok && r->Ok_0@ == query->Some_0.subscription_token@,
{
    match query {
        None => Err(QueryError::MissingToken),
        Some(p) => {
            if p.subscription_token.as_str().is_empty() {
                Err(QueryError::EmptyToken)
            } else {
                Ok(TokenValue::new(p.subscription_token))
            }
        },
    }
}

/// Where a confirmation goes once the token lookup has answered: on to mark
/// the subscriber confirmed, or to its final result.
#[derive(Debug)]
pub enum ConfirmStep {
    MarkConfirmed(SubscriberId),
    Done(Result<ConfirmationOutcome, ConfirmError>),
}

pub open spec fn step_after_lookup(lookup: Result<Option<SubscriberId>, StoreError>) -> ConfirmStep {
    match lookup {
        Err(e) => ConfirmStep::Done(Err(ConfirmError::UnexpectedError(FailedStep::TokenLookup, e))),
        Ok(None) => ConfirmStep::Done(Err(ConfirmError::UnauthorisedError)),
        Ok(Some(id)) => ConfirmStep::MarkConfirmed(id),
    }
}

pub open spec fn result_after_mark(marked: Result<(), StoreError>) -> Result<ConfirmationOutcome, ConfirmError> {
    match marked {
        Ok(()) => Ok(ConfirmationOutcome::Confirmed),
        Err(e) => Err(ConfirmError::UnexpectedError(FailedStep::MarkConfirmed, e)),
    }
}

/// Decides on the answer of the token lookup: an unknown token is
/// unauthorised, a store failure is unexpected, a known one goes on to be
/// marked confirmed.
pub fn after_lookup(lookup: Result<Option<SubscriberId>, StoreError>) -> (r: ConfirmStep)
    ensures
        r == step_after_lookup(lookup),
{
    match lookup {
        Err(e) => ConfirmStep::Done(Err(ConfirmError::UnexpectedError(FailedStep::TokenLookup, e))),
        Ok(None) => ConfirmStep::Done(Err(ConfirmError::UnauthorisedError)),
        Ok(Some(id)) => ConfirmStep::MarkConfirmed(id),
    }
}

/// Decides on the answer of the status update: success confirms, whatever the
/// prior status was; a store failure is unexpected.
pub fn after_mark(marked: Result<(), StoreError>) -> (r: Result<ConfirmationOutcome, ConfirmError>)
    ensures
        r == result_after_mark(marked),
{
    match marked {
        Ok(()) => Ok(ConfirmationOutcome::Confirmed),
        Err(e) => Err(ConfirmError::UnexpectedError(FailedStep::MarkConfirmed, e)),
    }
}

/// The result of confirming `token` against the token map `tokens`.
pub open spec fn confirm_result(tokens: Map<Seq<char>, SubscriberId>, token: Seq<char>) -> Result<ConfirmationOutcome, ConfirmError> {
    match lookup(tokens, token) {
        None => Err(ConfirmError::UnauthorisedError),
        Some(_) => Ok(ConfirmationOutcome::Confirmed),
    }
}

/// The subscriber map after confirming `token`.
pub open spec fn confirmed_state(
    tokens: Map<Seq<char>, SubscriberId>,
    subscribers: Map<SubscriberId, SubscriptionStatus>,
    token: Seq<char>,
) -> Map<SubscriberId, SubscriptionStatus> {
    match lookup(tokens, token) {
        None => subscribers,
        Some(id) => marked(subscribers, id),
    }
}

/// Looks up the subscriber that `token` was issued for.
pub fn get_subscriber_id_from_token(tokens: &TokenStore, token: &TokenValue) -> (r: Result<Option<SubscriberId>, StoreError>)
    requires
        tokens.wf(),
    ensures
        r == Ok::<Option<SubscriberId>, StoreError>(lookup(tokens@, token@)),
{
    Ok(tokens.resolve(token))
}

/// Marks subscriber `id` confirmed.
pub fn confirm_subscriber(subscribers: &mut SubscriberStore, id: SubscriberId) -> (r: Result<(), StoreError>)
    requires
        old(subscribers).wf(),
    ensures
        final(subscribers).wf(),
        r == Ok::<(), StoreError>(()),
        final(subscribers)@ == marked(old(subscribers)@, id),
{
    subscribers.mark_confirmed(id);
    Ok(())
}

/// Confirms the subscriber that `token` was issued for: `Confirmed` for a known
/// token, whatever the subscriber's prior status, and `UnauthorisedError` with
/// no change for an unknown one.
pub fn confirm(tokens: &TokenStore, subscribers: &mut SubscriberStore, token: &TokenValue) -> (r: Result<ConfirmationOutcome, ConfirmError>)
    requires
        tokens.wf(),
        old(subscribers).wf(),
    ensures
        final(subscribers).wf(),
        r == confirm_result(tokens@, token@),
        final(subscribers)@ == confirmed_state(tokens@, old(subscribers)@, token@),
{
    let lookup = get_subscriber_id_from_token(tokens, token);
    match after_lookup(lookup) {
        ConfirmStep::Done(r) => r,
        ConfirmStep::MarkConfirmed(id) => after_mark(confirm_subscriber(subscribers, id)),
    }
}

/// Answers a confirmation request: 400 where the query carries no token, with
/// nothing confirmed; else the status of confirming that token.
pub fn confirm_request(
    tokens: &TokenStore,
    subscribers: &mut SubscriberStore,
    query: Option<Parameters>,
) -> (status: u16)
    requires
        tokens.wf(),
        old(subscribers).wf(),
    ensures
        final(subscribers).wf(),
        match query {
            Some(p) if p.subscription_token@.len() > 0 => {
                &&& status == response_status_of(confirm_result(tokens@, p.subscription_token@))
                &&& final(subscribers)@ == confirmed_state(tokens@, old(subscribers)@, p.subscription_token@)
            },
            _ => status == 400 && final(subscribers)@ == old(subscribers)@,
        },
{
    match token_from_query(query) {
        Err(e) => e.status_code(),
        Ok(token) => {
            let r = confirm(tokens, subscribers, &token);
            response_status(&r)
        },
    }
}

/// The subscriber map after confirming each token of `sequence` in turn.
pub open spec fn confirm_all(
    tokens: Map<Seq<char>, SubscriberId>,
    subscribers: Map<SubscriberId, SubscriptionStatus>,
    sequence: Seq<Seq<char>>,
) -> Map<SubscriberId, SubscriptionStatus>
    decreases sequence.len(),
{
    if sequence.len() == 0 {
        subscribers
    } else {
        confirm_all(tokens, confirmed_state(tokens, subscribers, sequence[0]), sequence.drop_first())
    }
}

/// Marking a subscriber confirmed a second time changes nothing.
pub proof fn lemma_marked_idempotent(subscribers: Map<SubscriberId, SubscriptionStatus>, id: SubscriberId)
    ensures
        marked(marked(subscribers, id), id) == marked(subscribers, id),
{
    assert(marked(marked(subscribers, id), id) =~= marked(subscribers, id));
}

/// Confirming the same valid token twice gives `Confirmed` both times, leaves
/// the subscriber confirmed after each call, and the second call changes
/// nothing.
pub proof fn lemma_confirm_twice(
    tokens: Map<Seq<char>, SubscriberId>,
    subscribers: Map<SubscriberId, SubscriptionStatus>,
    token: Seq<char>,
)
    requires
        tokens.contains_key(token),
        subscribers.contains_key(tokens[token]),
    ensures
        ({
            let id = tokens[token];
            let first = confirmed_state(tokens, subscribers, token);
            let second = confirmed_state(tokens, first, token);
            &&& confirm_result(tokens, token) == Ok::<ConfirmationOutcome, ConfirmError>(ConfirmationOutcome::Confirmed)
            &&& first.contains_key(id) && first[id] == SubscriptionStatus::Confirmed
            &&& second == first
        }),
{
    lemma_marked_idempotent(subscribers, tokens[token]);
}

/// A token that was never issued is unauthorised, is answered with 401, and
/// changes no subscriber.
pub proof fn lemma_unknown_token_unauthorised(
    tokens: Map<Seq<char>, SubscriberId>,
    subscribers: Map<SubscriberId, SubscriptionStatus>,
    token: Seq<char>,
)
    requires
        !tokens.contains_key(token),
    ensures
        confirm_result(tokens, token) == Err::<ConfirmationOutcome, ConfirmError>(ConfirmError::UnauthorisedError),
        response_status_of(confirm_result(tokens, token)) == 401,
        confirmed_state(tokens, subscribers, token) == subscribers,
{
}

/// Once a subscriber is confirmed, no sequence of confirmations, with valid
/// or unknown tokens, takes it away from `Confirmed`.
pub proof fn lemma_no_downgrade(
    tokens: Map<Seq<char>, SubscriberId>,
    subscribers: Map<SubscriberId, SubscriptionStatus>,
    sequence: Seq<Seq<char>>,
    id: SubscriberId,
)
    requires
        subscribers.contains_key(id),
        subscribers[id] == SubscriptionStatus::Confirmed,
    ensures
        confirm_all(tokens, subscribers, sequence).contains_key(id),
        confirm_all(tokens, subscribers, sequence)[id] == SubscriptionStatus::Confirmed,
    decreases sequence.len(),
{
    if sequence.len() > 0 {
        lemma_no_downgrade(tokens, confirmed_state(tokens, subscribers, sequence[0]), sequence.drop_first(), id);
    }
}

/// Two confirmations of the same valid token that run at once, in any
/// interleaving of their lookups and updates, both read the same subscriber,
/// both give `Confirmed`, and leave the store as one confirmation does.
pub proof fn lemma_concurrent_same_token(
    tokens: Map<Seq<char>, SubscriberId>,
    subscribers: Map<SubscriberId, SubscriptionStatus>,
    token: Seq<char>,
)
    requires
        tokens.contains_key(token),
        subscribers.contains_key(tokens[token]),
    ensures
        ({
            let id = tokens[token];
            let both = marked(marked(subscribers, id), id);
            &&& step_after_lookup(Ok(lookup(tokens, token))) == ConfirmStep::MarkConfirmed(id)
            &&& result_after_mark(Ok(())) == Ok::<ConfirmationOutcome, ConfirmError>(ConfirmationOutcome::Confirmed)
            &&& both == confirmed_state(tokens, subscribers, token)
            &&& both.contains_key(id) && both[id] == SubscriptionStatus::Confirmed
        }),
{
    lemma_marked_idempotent(subscribers, tokens[token]);
}

} // verus!
