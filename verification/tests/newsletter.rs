use zero2rs::newsletter::{
    basic_auth_challenge, basic_authentication, get_confirmed_subscribers, publish_newsletter,
    BodyData, Content, PublishError,
};
use zero2rs::store::{Store, SubscriberRow, SubscriberStatus, TokenRow};

fn newsletter_body() -> BodyData {
    BodyData {
        title: String::from("Newsletter title"),
        content: Content {
            plain: String::from("Newsletter content"),
            html: String::from("<p>Newsletter content</p>"),
        },
    }
}

fn authorization_for(username: &str, password: &str) -> String {
    format!(
        "Basic {}",
        base64::encode(format!("{}:{}", username, password))
    )
}

fn row(id: u128, email: &str, status: SubscriberStatus) -> SubscriberRow {
    SubscriberRow {
        id,
        email: String::from(email),
        name: format!("subscriber {}", id),
        subscribed_at: 0,
        status,
    }
}

#[test]
fn fanout_with_zero_confirmed_subscribers_sends_zero_emails() {
    let store = Store::from_rows(
        vec![row(1, "pending@example.com", SubscriberStatus::PendingConfirmation)],
        vec![TokenRow {
            token: String::from("token-for-the-pending-one"),
            subscriber_id: 1,
        }],
    )
    .unwrap();
    let auth = authorization_for("user", "password");
    let run = publish_newsletter(&store, Some(&auth), &newsletter_body()).unwrap();
    assert!(run.is_complete());
    assert_eq!(run.emails.len(), 0);
    assert!(run.next_email().is_none());
}

#[test]
fn fanout_skips_a_corrupted_email_and_delivers_to_the_rest() {
    let store = Store::from_rows(
        vec![
            row(1, "first@example.com", SubscriberStatus::Confirmed),
            row(2, "not-an-email", SubscriberStatus::Confirmed),
            row(3, "third@example.com", SubscriberStatus::Confirmed),
        ],
        vec![],
    )
    .unwrap();
    let auth = authorization_for("user", "password");
    let mut run = publish_newsletter(&store, Some(&auth), &newsletter_body()).unwrap();

    assert_eq!(run.emails.len(), 2);
    assert_eq!(run.emails[0].to, "first@example.com");
    assert_eq!(run.emails[1].to, "third@example.com");
    for email in &run.emails {
        assert_eq!(email.subject, "Newsletter title");
        assert_eq!(email.html_content, "<p>Newsletter content</p>");
        assert_eq!(email.text_content, "Newsletter content");
    }

    assert!(!run.is_complete());
    run.record_success();
    run.record_success();
    assert!(run.is_complete());
}

#[test]
fn fanout_only_targets_confirmed_subscribers() {
    let store = Store::from_rows(
        vec![
            row(1, "confirmed@example.com", SubscriberStatus::Confirmed),
            row(2, "pending@example.com", SubscriberStatus::PendingConfirmation),
        ],
        vec![],
    )
    .unwrap();
    let auth = authorization_for("user", "password");
    let run = publish_newsletter(&store, Some(&auth), &newsletter_body()).unwrap();
    assert_eq!(run.emails.len(), 1);
    assert_eq!(run.emails[0].to, "confirmed@example.com");
}

#[test]
fn missing_authorization_header_is_rejected_with_a_challenge() {
    let store = Store::new();
    let result = publish_newsletter(&store, None, &newsletter_body());
    match result {
        Err(e @ PublishError::AuthError(_)) => {
            assert_eq!(e.status_code(), 401);
            assert_eq!(basic_auth_challenge(), "Basic realm=\"publish\"");
        }
        _ => panic!("expected an auth error without the header"),
    }
    match basic_authentication(None) {
        Err(PublishError::AuthError(chain)) => {
            assert_eq!(chain.message, "The authorization header is missing");
        }
        _ => panic!("expected an auth error without the header"),
    }
}

#[test]
fn wrong_scheme_is_rejected() {
    let store = Store::new();
    let bearer = format!("Bearer {}", base64::encode("user:password"));
    match publish_newsletter(&store, Some(&bearer), &newsletter_body()) {
        Err(PublishError::AuthError(chain)) => {
            assert_eq!(chain.message, "The authorization scheme was not 'Basic '.");
        }
        _ => panic!("expected an auth error for a non-Basic scheme"),
    }
}

#[test]
fn invalid_base64_is_rejected() {
    let store = Store::new();
    match publish_newsletter(&store, Some("Basic !!!not-base64!!!"), &newsletter_body()) {
        Err(PublishError::AuthError(chain)) => {
            assert_eq!(chain.message, "The authorization header is not base64-encoded.");
        }
        _ => panic!("expected an auth error for invalid base64"),
    }
}

#[test]
fn invalid_utf8_credentials_are_rejected() {
    let store = Store::new();
    let bad = format!("Basic {}", base64::encode([0xffu8, 0xfe, 0xfd]));
    match publish_newsletter(&store, Some(&bad), &newsletter_body()) {
        Err(PublishError::AuthError(chain)) => {
            assert_eq!(chain.message, "The authorization header contains invalid utf-8");
        }
        _ => panic!("expected an auth error for invalid utf-8"),
    }
}

#[test]
fn credentials_without_a_colon_are_rejected() {
    let store = Store::new();
    let bad = format!("Basic {}", base64::encode("useronly"));
    match publish_newsletter(&store, Some(&bad), &newsletter_body()) {
        Err(PublishError::AuthError(chain)) => {
            assert_eq!(chain.message, "A password must be provided in 'Basic' auth");
        }
        _ => panic!("expected an auth error without a colon"),
    }
}

#[test]
fn basic_authentication_splits_at_the_first_colon() {
    let auth = authorization_for("le guin", "pass:word");
    let credentials = basic_authentication(Some(&auth)).unwrap();
    assert_eq!(credentials.username, "le guin");
    assert_eq!(credentials.password, "pass:word");
}

#[test]
fn send_failure_names_the_failing_recipient() {
    let store = Store::from_rows(
        vec![row(1, "first@example.com", SubscriberStatus::Confirmed)],
        vec![],
    )
    .unwrap();
    let auth = authorization_for("user", "password");
    let run = publish_newsletter(&store, Some(&auth), &newsletter_body()).unwrap();
    let error = run.send_failure();
    match error {
        PublishError::UnexpectedError(chain) => {
            assert_eq!(chain.message, "Failed to send email to first@example.com");
        }
        _ => panic!("expected an unexpected error"),
    }
}

#[test]
fn listing_confirmed_subscribers_reports_corrupt_rows_per_row() {
    let store = Store::from_rows(
        vec![
            row(1, "first@example.com", SubscriberStatus::Confirmed),
            row(2, "not-an-email", SubscriberStatus::Confirmed),
            row(3, "pending@example.com", SubscriberStatus::PendingConfirmation),
        ],
        vec![],
    )
    .unwrap();
    let entries = get_confirmed_subscribers(&store);
    assert_eq!(entries.len(), 2);
    assert_eq!(
        entries[0].as_ref().unwrap().email.as_str(),
        "first@example.com"
    );
    assert_eq!(entries[1].as_ref().unwrap_err(), "Invalid email");
}
