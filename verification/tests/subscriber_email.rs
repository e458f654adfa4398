use email_news::domain::subscriber_email::address_shape;
use email_news::domain::{SubscriberEmail, ValidationError};
use fake::faker::internet::en::SafeEmail;
use fake::Fake;

#[test]
fn empty_email_fails() {
    let email = "".to_string();
    assert!(SubscriberEmail::parse(email).is_err());
}

#[test]
fn missing_at_symbol_fails() {
    let email = "mariegmail.com".to_string();
    assert!(SubscriberEmail::parse(email).is_err());
}

#[test]
fn missing_subject_fails() {
    let email = "@gmail.com".to_string();
    assert!(SubscriberEmail::parse(email).is_err());
}

#[test]
fn valid_email_succeeds() {
    let mut rng = rand::thread_rng();
    for _ in 0..1000 {
        let email = SafeEmail().fake_with_rng(&mut rng);
        assert!(SubscriberEmail::parse(email).is_ok());
    }
}

#[test]
fn a_rejected_address_is_malformed() {
    for email in ["", "mariegmail.com", "@gmail.com", "marie@", "a @x.cz", "marie@@gmail.com"] {
        assert_eq!(
            SubscriberEmail::parse(email.to_string()).unwrap_err(),
            ValidationError::MalformedEmail
        );
    }
}

#[test]
fn the_address_is_kept_as_given() {
    let email = SubscriberEmail::parse("Ursula_Le_Guin@Gmail.com".to_string()).unwrap();
    assert_eq!(email.as_ref(), "Ursula_Le_Guin@Gmail.com");
    assert_eq!(email.clone().as_ref(), "Ursula_Le_Guin@Gmail.com");
}

#[test]
fn an_accepted_address_holds_an_at_and_does_not_begin_with_it() {
    let mut rng = rand::thread_rng();
    for _ in 0..200 {
        let email: String = SafeEmail().fake_with_rng(&mut rng);
        let parsed = SubscriberEmail::parse(email).unwrap();
        assert!(parsed.as_ref().contains('@'));
        assert!(!parsed.as_ref().starts_with('@'));
    }
}

#[test]
fn check_asks_for_the_validator_and_for_the_shape() {
    assert_eq!(SubscriberEmail::check("marie@gmail.com", true), Ok(()));
    assert_eq!(
        SubscriberEmail::check("marie@gmail.com", false),
        Err(ValidationError::MalformedEmail)
    );
    assert_eq!(
        SubscriberEmail::check("abc@bar", true),
        Err(ValidationError::MalformedEmail)
    );
    assert_eq!(
        SubscriberEmail::check("abc@bar", false),
        Err(ValidationError::MalformedEmail)
    );
    assert_eq!(
        SubscriberEmail::check("", true),
        Err(ValidationError::MalformedEmail)
    );
}

#[test]
fn a_domain_without_a_dot_fails() {
    for email in ["abc@bar", "email@localhost", "a.b@c", "first.last@com", "email@[2001:dB8::1]"] {
        assert_eq!(
            SubscriberEmail::parse(email.to_string()).unwrap_err(),
            ValidationError::MalformedEmail
        );
    }
}

#[test]
fn a_domain_with_a_dot_passes_where_the_grammar_does() {
    for email in [
        "abc@bar.com",
        "a@b.c",
        "email@here.com",
        "weirder-email@here.and.there.com",
        "!def!xyz%abc@example.com",
        "email@127.0.0.1",
        "email@[127.0.0.1]",
        "example@valid-----hyphens.com",
    ] {
        assert_eq!(
            SubscriberEmail::parse(email.to_string()).unwrap().as_ref(),
            email
        );
    }
}

#[test]
fn a_dot_does_not_mend_what_the_grammar_refuses() {
    for email in [
        "abc@.com",
        "trailingdot@shouldfail.com.",
        "example@invalid-.com",
        "John.Doe@exam_ple.com",
        "a@b.com\n",
        "something@@somewhere.com",
        "@somewhere.com",
        "some@where@there.com",
        "somewhere.com@",
    ] {
        assert!(SubscriberEmail::parse(email.to_string()).is_err());
    }
}

#[test]
fn the_shape_is_an_at_between_two_parts_and_a_dot_in_the_domain() {
    for (text, shaped) in [
        ("a@b.c", true),
        ("marie@gmail.com", true),
        ("a b@c d.e", true),
        ("x@y@z.w", true),
        ("a@b.", true),
        ("a@.b", true),
        ("", false),
        ("@", false),
        (".", false),
        ("a.b", false),
        ("mariegmail.com", false),
        ("@gmail.com", false),
        ("marie@", false),
        ("marie.curie@", false),
        ("abc@bar", false),
        ("a.b@c", false),
        ("a@@b.c", false),
        ("a@b.c@@d.e", false),
        ("a@b.c@d", false),
        ("a@b.c@", false),
    ] {
        assert_eq!(address_shape(text), shaped, "{:?}", text);
    }
}
