use zero2rs::errors::{error_chain_fmt, ErrorChain};
use zero2rs::store::{Store, StorageError, SubscriberRow, SubscriberStatus, TokenRow};

#[test]
fn report_without_cause_is_one_line() {
    let report = ErrorChain::new(String::from("something went wrong"));
    assert_eq!(error_chain_fmt(&report), "something went wrong\n");
}

#[test]
fn report_walks_the_whole_cause_chain() {
    let root = ErrorChain::new(String::from("connection refused"));
    let middle = ErrorChain::with_cause(String::from("query failed"), root);
    let top = ErrorChain::with_cause(String::from("Failed to insert new subscriber in the database"), middle);
    assert_eq!(
        error_chain_fmt(&top),
        "Failed to insert new subscriber in the database\n\
         caused by: query failed\n\
         caused by: connection refused\n"
    );
}

#[test]
fn storage_errors_describe_themselves() {
    assert_eq!(StorageError::DuplicateId.describe(), "duplicate subscriber id");
    assert_eq!(
        StorageError::DuplicateEmail.describe(),
        "duplicate subscriber email"
    );
    assert_eq!(
        StorageError::DuplicateToken.describe(),
        "duplicate subscription token"
    );
    assert_eq!(
        StorageError::UnknownSubscriber.describe(),
        "token references an unknown subscriber"
    );
}

#[test]
fn duplicate_rows_are_refused_when_opening_a_store() {
    let duplicate = |id: u128| SubscriberRow {
        id,
        email: String::from("same@example.com"),
        name: String::from("same"),
        subscribed_at: 0,
        status: SubscriberStatus::Confirmed,
    };
    let result = Store::from_rows(vec![duplicate(1), duplicate(2)], vec![]);
    assert_eq!(result.err(), Some(StorageError::DuplicateEmail));
}

#[test]
fn a_token_for_an_unknown_subscriber_is_refused() {
    let result = Store::from_rows(
        vec![],
        vec![TokenRow {
            token: String::from("orphan"),
            subscriber_id: 7,
        }],
    );
    assert_eq!(result.err(), Some(StorageError::UnknownSubscriber));
}

#[test]
fn duplicate_ids_are_refused_when_opening_a_store() {
    let with_id = |id: u128, email: &str| SubscriberRow {
        id,
        email: String::from(email),
        name: String::from("someone"),
        subscribed_at: 0,
        status: SubscriberStatus::PendingConfirmation,
    };
    let result = Store::from_rows(
        vec![with_id(1, "a@example.com"), with_id(1, "b@example.com")],
        vec![],
    );
    assert_eq!(result.err(), Some(StorageError::DuplicateId));
}

#[test]
fn duplicate_tokens_are_refused_when_opening_a_store() {
    let row = SubscriberRow {
        id: 1,
        email: String::from("a@example.com"),
        name: String::from("someone"),
        subscribed_at: 0,
        status: SubscriberStatus::PendingConfirmation,
    };
    let token = |sid: u128| TokenRow {
        token: String::from("samesamesamesamesamesame1"),
        subscriber_id: sid,
    };
    let result = Store::from_rows(vec![row], vec![token(1), token(1)]);
    assert_eq!(result.err(), Some(StorageError::DuplicateToken));
}
