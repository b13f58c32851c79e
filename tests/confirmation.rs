use zero2prod::domain::{StoreError, SubscriberId, SubscriptionStatus, TokenValue};
use zero2prod::store::{SubscriberStore, TokenStore};
use zero2prod::subscriptions_confirm::{
    after_lookup, after_mark, confirm, confirm_request, confirm_subscriber, get_subscriber_id_from_token,
    response_status, token_from_query, ConfirmError, ConfirmStep, ConfirmationOutcome,
    FailedStep, Parameters, QueryError,
};

fn token(s: &str) -> TokenValue {
    TokenValue::new(s.to_string())
}

fn stores_with(tok: &str, id: u128) -> (TokenStore, SubscriberStore) {
    let mut tokens = TokenStore::new();
    let mut subscribers = SubscriberStore::new();
    assert!(subscribers.add_pending(SubscriberId { value: id }));
    assert!(tokens.issue(token(tok), SubscriberId { value: id }));
    (tokens, subscribers)
}

#[test]
fn scenario_pending_subscriber_is_confirmed() {
    let (tokens, mut subscribers) = stores_with("abc123", 1);
    let s1 = SubscriberId { value: 1 };
    assert_eq!(subscribers.status(s1), Some(SubscriptionStatus::Pending));
    let r = confirm(&tokens, &mut subscribers, &token("abc123"));
    assert!(matches!(r, Ok(ConfirmationOutcome::Confirmed)));
    assert_eq!(subscribers.status(s1), Some(SubscriptionStatus::Confirmed));
    let query = Some(Parameters::new("abc123".to_string()));
    assert_eq!(confirm_request(&tokens, &mut subscribers, query), 200);
    assert_eq!(subscribers.status(s1), Some(SubscriptionStatus::Confirmed));
}

#[test]
fn scenario_unknown_token_is_unauthorised() {
    let (tokens, mut subscribers) = stores_with("abc123", 1);
    let query = Some(Parameters::new("does-not-exist".to_string()));
    assert_eq!(confirm_request(&tokens, &mut subscribers, query), 401);
    let r = confirm(&tokens, &mut subscribers, &token("does-not-exist"));
    assert!(matches!(r, Err(ConfirmError::UnauthorisedError)));
    assert_eq!(
        subscribers.status(SubscriberId { value: 1 }),
        Some(SubscriptionStatus::Pending)
    );
}

#[test]
fn scenario_missing_query_parameter_is_client_error() {
    let r = token_from_query(None);
    assert!(matches!(r, Err(QueryError::MissingToken)));
    assert_eq!(QueryError::MissingToken.status_code(), 400);
    let (tokens, mut subscribers) = stores_with("abc123", 1);
    assert_eq!(confirm_request(&tokens, &mut subscribers, None), 400);
    assert_eq!(
        subscribers.status(SubscriberId { value: 1 }),
        Some(SubscriptionStatus::Pending)
    );
}

#[test]
fn empty_query_token_is_client_error_before_confirming() {
    let mut tokens = TokenStore::new();
    let mut subscribers = SubscriberStore::new();
    assert!(subscribers.add_pending(SubscriberId { value: 1 }));
    assert!(tokens.issue(token(""), SubscriberId { value: 1 }));
    let query = Some(Parameters::new(String::new()));
    assert_eq!(confirm_request(&tokens, &mut subscribers, query), 400);
    assert_eq!(
        subscribers.status(SubscriberId { value: 1 }),
        Some(SubscriptionStatus::Pending)
    );
}

#[test]
fn empty_token_is_client_error() {
    let r = token_from_query(Some(Parameters::new(String::new())));
    assert!(matches!(r, Err(QueryError::EmptyToken)));
    assert_eq!(QueryError::EmptyToken.status_code(), 400);
}

#[test]
fn token_from_query_keeps_the_token() {
    let r = token_from_query(Some(Parameters::new("xyz".to_string()))).unwrap();
    assert_eq!(r.as_str(), "xyz");
}

#[test]
fn scenario_store_failure_on_mark_is_internal_error() {
    let r = after_mark(Err(StoreError::new("connection refused".to_string())));
    match &r {
        Err(ConfirmError::UnexpectedError(step, cause)) => {
            assert_eq!(*step, FailedStep::MarkConfirmed);
            assert_eq!(cause.message, "connection refused");
        }
        _ => panic!("expected an unexpected error"),
    }
    assert_eq!(response_status(&r), 500);
}

#[test]
fn store_failure_on_lookup_is_internal_error() {
    match after_lookup(Err(StoreError::new("timeout".to_string()))) {
        ConfirmStep::Done(r) => {
            assert!(matches!(
                r,
                Err(ConfirmError::UnexpectedError(FailedStep::TokenLookup, _))
            ));
            assert_eq!(response_status(&r), 500);
        }
        ConfirmStep::MarkConfirmed(_) => panic!("expected a final result"),
    }
}

#[test]
fn lookup_decisions() {
    assert!(matches!(
        after_lookup(Ok(None)),
        ConfirmStep::Done(Err(ConfirmError::UnauthorisedError))
    ));
    match after_lookup(Ok(Some(SubscriberId { value: 9 }))) {
        ConfirmStep::MarkConfirmed(id) => assert_eq!(id.value, 9),
        ConfirmStep::Done(_) => panic!("expected the update step"),
    }
    assert!(matches!(after_mark(Ok(())), Ok(ConfirmationOutcome::Confirmed)));
}

#[test]
fn confirming_twice_is_idempotent() {
    let (tokens, mut subscribers) = stores_with("t1", 5);
    let id = SubscriberId { value: 5 };
    let first = confirm(&tokens, &mut subscribers, &token("t1"));
    assert!(matches!(first, Ok(ConfirmationOutcome::Confirmed)));
    assert_eq!(subscribers.status(id), Some(SubscriptionStatus::Confirmed));
    let second = confirm(&tokens, &mut subscribers, &token("t1"));
    assert!(matches!(second, Ok(ConfirmationOutcome::Confirmed)));
    assert_eq!(subscribers.status(id), Some(SubscriptionStatus::Confirmed));
}

#[test]
fn confirmed_subscriber_stays_confirmed() {
    let (mut tokens, mut subscribers) = stores_with("a", 1);
    assert!(subscribers.add_pending(SubscriberId { value: 2 }));
    assert!(tokens.issue(token("b"), SubscriberId { value: 2 }));
    assert!(confirm(&tokens, &mut subscribers, &token("a")).is_ok());
    for t in ["a", "nope", "b", "", "a"] {
        let _ = confirm(&tokens, &mut subscribers, &token(t));
        assert_eq!(
            subscribers.status(SubscriberId { value: 1 }),
            Some(SubscriptionStatus::Confirmed)
        );
    }
    assert_eq!(
        subscribers.status(SubscriberId { value: 2 }),
        Some(SubscriptionStatus::Confirmed)
    );
}

#[test]
fn unknown_tokens_are_unauthorised() {
    let (tokens, mut subscribers) = stores_with("abc123", 1);
    for t in ["", "abc", "abc1234", "ABC123", "does-not-exist"] {
        let r = confirm(&tokens, &mut subscribers, &token(t));
        assert!(matches!(r, Err(ConfirmError::UnauthorisedError)));
    }
    assert_eq!(
        subscribers.status(SubscriberId { value: 1 }),
        Some(SubscriptionStatus::Pending)
    );
}

#[test]
fn token_resolves_to_the_same_subscriber() {
    let (mut tokens, _) = stores_with("abc123", 7);
    let first = tokens.resolve(&token("abc123"));
    assert!(tokens.issue(token("other"), SubscriberId { value: 8 }));
    let second = tokens.resolve(&token("abc123"));
    assert_eq!(first, Some(SubscriberId { value: 7 }));
    assert_eq!(first, second);
    assert_eq!(tokens.resolve(&token("other")), Some(SubscriberId { value: 8 }));
}

#[test]
fn duplicate_token_is_refused() {
    let (mut tokens, _) = stores_with("abc123", 7);
    assert!(!tokens.issue(token("abc123"), SubscriberId { value: 8 }));
    assert_eq!(tokens.resolve(&token("abc123")), Some(SubscriberId { value: 7 }));
}

#[test]
fn duplicate_subscriber_is_refused() {
    let mut subscribers = SubscriberStore::new();
    let id = SubscriberId { value: 3 };
    assert!(subscribers.add_pending(id));
    subscribers.mark_confirmed(id);
    assert!(!subscribers.add_pending(id));
    assert_eq!(subscribers.status(id), Some(SubscriptionStatus::Confirmed));
    assert_eq!(subscribers.status(SubscriberId { value: 4 }), None);
}

#[test]
fn subscriber_may_hold_several_tokens() {
    let (mut tokens, mut subscribers) = stores_with("first", 1);
    assert!(tokens.issue(token("second"), SubscriberId { value: 1 }));
    let r = confirm(&tokens, &mut subscribers, &token("second"));
    assert!(matches!(r, Ok(ConfirmationOutcome::Confirmed)));
    let r = confirm(&tokens, &mut subscribers, &token("first"));
    assert!(matches!(r, Ok(ConfirmationOutcome::Confirmed)));
    assert_eq!(
        subscribers.status(SubscriberId { value: 1 }),
        Some(SubscriptionStatus::Confirmed)
    );
}

#[test]
fn same_token_interleaved_confirmations() {
    let (tokens, mut subscribers) = stores_with("abc123", 1);
    let id = SubscriberId { value: 1 };
    let a = get_subscriber_id_from_token(&tokens, &token("abc123"));
    let b = get_subscriber_id_from_token(&tokens, &token("abc123"));
    let (ia, ib) = match (after_lookup(a), after_lookup(b)) {
        (ConfirmStep::MarkConfirmed(x), ConfirmStep::MarkConfirmed(y)) => (x, y),
        _ => panic!("both lookups must resolve"),
    };
    assert_eq!(ia, id);
    assert_eq!(ib, id);
    let ra = after_mark(confirm_subscriber(&mut subscribers, ia));
    let rb = after_mark(confirm_subscriber(&mut subscribers, ib));
    assert!(matches!(ra, Ok(ConfirmationOutcome::Confirmed)));
    assert!(matches!(rb, Ok(ConfirmationOutcome::Confirmed)));
    assert_eq!(subscribers.status(id), Some(SubscriptionStatus::Confirmed));
}

#[test]
fn confirm_of_unknown_subscriber_changes_nothing() {
    let mut tokens = TokenStore::new();
    let mut subscribers = SubscriberStore::new();
    assert!(tokens.issue(token("orphan"), SubscriberId { value: 42 }));
    let r = confirm(&tokens, &mut subscribers, &token("orphan"));
    assert!(matches!(r, Ok(ConfirmationOutcome::Confirmed)));
    assert_eq!(subscribers.status(SubscriberId { value: 42 }), None);
}

#[test]
fn error_status_codes() {
    assert_eq!(ConfirmError::UnauthorisedError.status_code(), 401);
    let e = ConfirmError::UnexpectedError(FailedStep::TokenLookup, StoreError::new(String::new()));
    assert_eq!(e.status_code(), 500);
}

#[test]
fn failure_contexts() {
    assert_eq!(FailedStep::TokenLookup.context(), "Failed to get subscriber token.");
    assert_eq!(
        FailedStep::MarkConfirmed.context(),
        "could not confirm subscriber in the database."
    );
}
