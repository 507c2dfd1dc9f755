use zero2rs::configuration::ApplicationBaseUrl;
use zero2rs::newsletter::{publish_newsletter, BodyData, Content};
use zero2rs::store::{Store, SubscriberStatus};
use zero2rs::subscriptions::{complete_subscription, subscribe, FormData};
use zero2rs::subscriptions_confirm::{confirm, Parameters};

// The whole subscriber lifecycle: subscribe, confirm through the emailed
// link's token, then receive exactly one newsletter.
#[test]
fn subscribe_confirm_and_receive_the_newsletter() {
    let mut store = Store::new();
    let base_url = ApplicationBaseUrl(String::from("http://127.0.0.1"));

    // Subscribe with name=le guin, email=ursula_le_guin@gmail.com.
    let form = FormData {
        email: String::from("ursula_le_guin@gmail.com"),
        name: String::from("le guin"),
    };
    let pending = subscribe(&store, form, &base_url).unwrap();
    let token = pending.token.clone();
    let confirmation_to = pending.email.to.clone();
    let confirmation_html = pending.email.html_content.clone();
    let confirmation_text = pending.email.text_content.clone();
    let id = complete_subscription(&mut store, pending, true).unwrap();

    // One pending row, one outbound confirmation email with a 25-character
    // token in the link.
    assert_eq!(store.subscribers.len(), 1);
    assert_eq!(store.subscribers[0].email, "ursula_le_guin@gmail.com");
    assert_eq!(store.subscribers[0].name, "le guin");
    assert_eq!(store.subscribers[0].status, SubscriberStatus::PendingConfirmation);
    assert_eq!(token.len(), 25);
    let link = format!(
        "http://127.0.0.1/subscriptions/confirm?subscription_token={}",
        token
    );
    assert!(confirmation_html.contains(&link));
    assert!(confirmation_text.contains(&link));
    assert_eq!(confirmation_to, "ursula_le_guin@gmail.com");

    // Visiting the link confirms the subscriber.
    let status = confirm(
        &mut store,
        &Parameters {
            subscription_token: token,
        },
    );
    assert_eq!(status, 200);
    assert_eq!(store.subscribers[0].id, id);
    assert_eq!(store.subscribers[0].status, SubscriberStatus::Confirmed);

    // Publishing with valid Basic credentials sends exactly one email to the
    // confirmed subscriber.
    let body = BodyData {
        title: String::from("T"),
        content: Content {
            plain: String::from("H"),
            html: String::from("<p>H</p>"),
        },
    };
    let auth = format!("Basic {}", base64::encode("user:password"));
    let mut run = publish_newsletter(&store, Some(&auth), &body).unwrap();
    assert_eq!(run.emails.len(), 1);
    assert_eq!(run.emails[0].to, "ursula_le_guin@gmail.com");
    assert_eq!(run.emails[0].subject, "T");
    assert_eq!(run.emails[0].html_content, "<p>H</p>");
    assert_eq!(run.emails[0].text_content, "H");
    assert!(!run.is_complete());
    run.record_success();
    assert!(run.is_complete());
}
