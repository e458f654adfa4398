use email_news::domain::{Subscriber, ValidationError};

#[test]
fn a_valid_pair_makes_a_subscriber_and_is_exposed_unchanged() {
    let subscriber =
        Subscriber::new("le guin".to_string(), "ursula_le_guin@gmail.com".to_string()).unwrap();
    assert_eq!(subscriber.name(), "le guin");
    assert_eq!(subscriber.email(), "ursula_le_guin@gmail.com");
}

#[test]
fn an_invalid_name_fails_the_subscriber() {
    assert_eq!(
        Subscriber::new("".to_string(), "ursula_le_guin@gmail.com".to_string()).unwrap_err(),
        ValidationError::EmptyOrWhitespace
    );
    assert_eq!(
        Subscriber::new("le (guin)".to_string(), "ursula_le_guin@gmail.com".to_string())
            .unwrap_err(),
        ValidationError::ForbiddenCharacter
    );
}

#[test]
fn an_invalid_email_fails_the_subscriber() {
    assert_eq!(
        Subscriber::new("le guin".to_string(), "Not-An-Email".to_string()).unwrap_err(),
        ValidationError::MalformedEmail
    );
}

#[test]
fn the_name_is_judged_before_the_email() {
    assert_eq!(
        Subscriber::new("e".repeat(257), "".to_string()).unwrap_err(),
        ValidationError::TooLong
    );
    assert_eq!(
        Subscriber::new(" ".to_string(), "@".to_string()).unwrap_err(),
        ValidationError::EmptyOrWhitespace
    );
}
