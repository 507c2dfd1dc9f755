use zero2rs::configuration::ApplicationBaseUrl;
use zero2rs::store::{Store, SubscriberStatus};
use zero2rs::subscriptions::{complete_subscription, subscribe, FormData};
use zero2rs::subscriptions_confirm::{confirm, get_subscriber_id, Parameters};

fn subscribed_store() -> (Store, u128, String) {
    let mut store = Store::new();
    let form = FormData {
        email: String::from("ursula_le_guin@gmail.com"),
        name: String::from("le guin"),
    };
    let base_url = ApplicationBaseUrl(String::from("http://127.0.0.1"));
    let pending = subscribe(&store, form, &base_url).unwrap();
    let token = pending.token.clone();
    let id = complete_subscription(&mut store, pending, true).unwrap();
    (store, id, token)
}

#[test]
fn redeeming_an_issued_token_confirms_the_subscriber() {
    let (mut store, id, token) = subscribed_store();
    assert_eq!(store.subscribers[0].status, SubscriberStatus::PendingConfirmation);

    let parameters = Parameters {
        subscription_token: token,
    };
    let status = confirm(&mut store, &parameters);
    assert_eq!(status, 200);
    assert_eq!(store.subscribers[0].id, id);
    assert_eq!(store.subscribers[0].status, SubscriberStatus::Confirmed);
}

#[test]
fn redeeming_the_same_token_twice_is_a_no_op_not_an_error() {
    let (mut store, _id, token) = subscribed_store();
    let parameters = Parameters {
        subscription_token: token,
    };
    assert_eq!(confirm(&mut store, &parameters), 200);
    let email_after_first = store.subscribers[0].email.clone();

    let status = confirm(&mut store, &parameters);
    assert_eq!(status, 200);
    assert_eq!(store.subscribers.len(), 1);
    assert_eq!(store.subscribers[0].status, SubscriberStatus::Confirmed);
    assert_eq!(store.subscribers[0].email, email_after_first);
    assert_eq!(store.tokens.len(), 1);
}

#[test]
fn redeeming_an_unknown_token_is_a_client_error_and_mutates_nothing() {
    let (mut store, _id, _token) = subscribed_store();
    let parameters = Parameters {
        subscription_token: String::from("doesnotexistdoesnotexist0"),
    };
    let status = confirm(&mut store, &parameters);
    assert_eq!(status, 400);
    assert_eq!(store.subscribers.len(), 1);
    assert_eq!(store.subscribers[0].status, SubscriberStatus::PendingConfirmation);
    assert_eq!(store.tokens.len(), 1);
}

#[test]
fn token_lookup_finds_the_issued_token_only() {
    let (store, id, token) = subscribed_store();
    assert_eq!(get_subscriber_id(&store, &token), Some(id));
    assert_eq!(get_subscriber_id(&store, "somethingelse"), None);
    assert_eq!(get_subscriber_id(&store, ""), None);
}
