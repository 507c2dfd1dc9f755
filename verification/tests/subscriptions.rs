use zero2rs::configuration::ApplicationBaseUrl;
use zero2rs::store::{Store, SubscriberStatus};
use zero2rs::subscriptions::{
    complete_subscription, generate_subscription_token, parse_subscriber, subscribe, FormData,
    SubscribeError,
};

fn base_url() -> ApplicationBaseUrl {
    ApplicationBaseUrl(String::from("http://127.0.0.1"))
}

fn le_guin_form() -> FormData {
    FormData {
        email: String::from("ursula_le_guin@gmail.com"),
        name: String::from("le guin"),
    }
}

#[test]
fn subscribe_persists_one_pending_row_and_one_token() {
    let mut store = Store::new();
    let pending = subscribe(&store, le_guin_form(), &base_url()).unwrap();
    let id = pending.subscriber_id;
    let committed = complete_subscription(&mut store, pending, true).unwrap();
    assert_eq!(committed, id);

    assert_eq!(store.subscribers.len(), 1);
    let row = &store.subscribers[0];
    assert_eq!(row.id, id);
    assert_eq!(row.email, "ursula_le_guin@gmail.com");
    assert_eq!(row.name, "le guin");
    assert_eq!(row.status, SubscriberStatus::PendingConfirmation);

    assert_eq!(store.tokens.len(), 1);
    assert_eq!(store.tokens[0].subscriber_id, id);
    assert_eq!(store.tokens[0].token.len(), 25);
}

#[test]
fn subscribe_with_invalid_email_writes_nothing() {
    let store = Store::new();
    for email in ["", "example.com", "@example.com", "example@"] {
        let form = FormData {
            email: String::from(email),
            name: String::from("le guin"),
        };
        let result = subscribe(&store, form, &base_url());
        match result {
            Err(SubscribeError::ValidationError(_)) => {}
            _ => panic!("expected a validation error for {:?}", email),
        }
    }
    assert_eq!(store.subscribers.len(), 0);
    assert_eq!(store.tokens.len(), 0);
}

#[test]
fn subscribe_with_invalid_name_is_a_validation_error() {
    let store = Store::new();
    let form = FormData {
        email: String::from("ursula_le_guin@gmail.com"),
        name: String::from("   "),
    };
    let result = subscribe(&store, form, &base_url());
    match result {
        Err(e @ SubscribeError::ValidationError(_)) => assert_eq!(e.status_code(), 400),
        _ => panic!("expected a validation error"),
    }
}

#[test]
fn subscribe_with_duplicate_email_is_an_unexpected_error() {
    let mut store = Store::new();
    let pending = subscribe(&store, le_guin_form(), &base_url()).unwrap();
    complete_subscription(&mut store, pending, true).unwrap();

    let result = subscribe(&store, le_guin_form(), &base_url());
    match result {
        Err(e @ SubscribeError::UnexpectedError(_)) => assert_eq!(e.status_code(), 500),
        _ => panic!("expected an unexpected error for the duplicate email"),
    }
    assert_eq!(store.subscribers.len(), 1);
}

#[test]
fn failed_confirmation_email_rolls_the_subscription_back() {
    let mut store = Store::new();
    let pending = subscribe(&store, le_guin_form(), &base_url()).unwrap();
    let result = complete_subscription(&mut store, pending, false);
    match result {
        Err(SubscribeError::UnexpectedError(_)) => {}
        _ => panic!("expected the failed send to abort the subscription"),
    }
    assert_eq!(store.subscribers.len(), 0);
    assert_eq!(store.tokens.len(), 0);
}

#[test]
fn confirmation_email_carries_the_link_with_the_token() {
    let store = Store::new();
    let pending = subscribe(&store, le_guin_form(), &base_url()).unwrap();
    assert_eq!(pending.token.len(), 25);
    assert!(pending.token.chars().all(|c| c.is_ascii_alphanumeric()));

    let link = format!(
        "http://127.0.0.1/subscriptions/confirm?subscription_token={}",
        pending.token
    );
    assert_eq!(pending.email.to, "ursula_le_guin@gmail.com");
    assert_eq!(pending.email.subject, "Welcome");
    assert!(pending.email.html_content.contains(&link));
    assert!(pending.email.text_content.contains(&link));
    assert_eq!(
        pending.email.html_content,
        format!(
            "welcome to our newsletter! <br /> Click <a href=\"{}\">here</a> to confirm your subscription.",
            link
        )
    );
    assert_eq!(
        pending.email.text_content,
        format!(
            "welcome to our newsletter! \n Visit {} to confirm your subscription.",
            link
        )
    );
}

#[test]
fn generated_tokens_are_25_alphanumeric_characters() {
    for _ in 0..32 {
        let token = generate_subscription_token();
        assert_eq!(token.chars().count(), 25);
        assert!(token.chars().all(|c| c.is_ascii_alphanumeric()));
    }
}

#[test]
fn parse_subscriber_checks_the_name_first() {
    let form = FormData {
        email: String::from("not-an-email"),
        name: String::from("{bad}"),
    };
    assert_eq!(
        parse_subscriber(form).unwrap_err(),
        "Invalid subscriber name"
    );

    let form = FormData {
        email: String::from("not-an-email"),
        name: String::from("le guin"),
    };
    assert_eq!(parse_subscriber(form).unwrap_err(), "Invalid email");
}

#[test]
fn duplicate_email_error_reports_its_cause_chain() {
    let mut store = Store::new();
    let pending = subscribe(&store, le_guin_form(), &base_url()).unwrap();
    complete_subscription(&mut store, pending, true).unwrap();

    match subscribe(&store, le_guin_form(), &base_url()) {
        Err(SubscribeError::UnexpectedError(chain)) => {
            assert_eq!(
                zero2rs::errors::error_chain_fmt(&chain),
                "Failed to insert new subscriber in the database\n\
                 caused by: duplicate subscriber email\n"
            );
        }
        _ => panic!("expected an unexpected error for the duplicate email"),
    }
}
