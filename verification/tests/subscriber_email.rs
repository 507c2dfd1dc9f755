use zero2rs::domain::SubscriberEmail;

#[test]
fn valid_email() {
    let email = SubscriberEmail::parse(String::from("ursula_le_guin@gmail.com"));
    assert!(email.is_ok());
}

#[test]
fn empty_email() {
    let email = SubscriberEmail::parse(String::from(""));
    assert!(email.is_err());
}

#[test]
fn invalid_email_no_at() {
    let email = SubscriberEmail::parse(String::from("example.com"));
    assert!(email.is_err());
}

#[test]
fn invalid_email_no_user() {
    let email = SubscriberEmail::parse(String::from("@example.com"));
    assert!(email.is_err());
}

#[test]
fn invalid_email_no_domain() {
    let email = SubscriberEmail::parse(String::from("example@"));
    assert!(email.is_err());
}

#[test]
fn email_with_two_at_signs_is_rejected() {
    let email = SubscriberEmail::parse(String::from("a@b@c"));
    assert!(email.is_err());
    assert_eq!(email.unwrap_err(), "Invalid email");
}

#[test]
fn email_error_messages_name_the_defect() {
    assert_eq!(
        SubscriberEmail::parse(String::from("")).unwrap_err(),
        "Email should not be empty"
    );
    assert_eq!(
        SubscriberEmail::parse(String::from("example.com")).unwrap_err(),
        "Invalid email"
    );
    assert_eq!(
        SubscriberEmail::parse(String::from("@example.com")).unwrap_err(),
        "Invalid email: no user"
    );
    assert_eq!(
        SubscriberEmail::parse(String::from("example@")).unwrap_err(),
        "Invalid email: no domain"
    );
}

#[test]
fn parsed_email_keeps_the_input() {
    let email = SubscriberEmail::parse(String::from("a@b")).unwrap();
    assert_eq!(email.as_str(), "a@b");
}

#[test]
fn external_validator_accepts_ordinary_email() {
    let email = SubscriberEmail::parse_use_external_library(String::from(
        "ursula_le_guin@gmail.com",
    ));
    assert!(email.is_ok());
    assert_eq!(email.unwrap().as_str(), "ursula_le_guin@gmail.com");
}

#[test]
fn external_validator_rejects_empty_email() {
    let email = SubscriberEmail::parse_use_external_library(String::from(""));
    assert!(email.is_err());
    assert_eq!(email.unwrap_err(), "Invalid email");
}
