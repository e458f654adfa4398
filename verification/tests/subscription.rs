use email_news::routes::{stored, subscribe, FormData, Next};

fn status_of(name: &str, email: &str, saved: bool) -> u16 {
    match subscribe(FormData::new(name.to_string(), email.to_string())) {
        Next::Store(_) => stored(saved),
        Next::Reply(status) => status,
    }
}

#[test]
fn subscribe_returns_200_for_valid_form_data() {
    // name=le%20guin&email=ursula_le_guin%40gmail.com, once decoded
    let form = FormData::new("le guin".to_string(), "ursula_le_guin@gmail.com".to_string());

    let saved = match subscribe(form) {
        Next::Store(subscriber) => subscriber,
        Next::Reply(status) => panic!("answered {} before storing", status),
    };
    assert_eq!(200, stored(true));

    assert_eq!(saved.email(), "ursula_le_guin@gmail.com");
    assert_eq!(saved.name(), "le guin");
}

#[test]
fn subscribe_returns_a_200_when_fields_present_but_empty() {
    let test_cases = vec![
        ("", "le_guin@gmail.com", "empty name"),
        ("le", "", "empty email"),
        ("Ursula", "Not-An-Email", "Invalid Email"),
    ];

    for (name, email, descr) in test_cases {
        assert_eq!(400, status_of(name, email, true), "{}", descr)
    }
}

#[test]
fn a_failure_to_store_is_a_500() {
    assert_eq!(500, status_of("le guin", "ursula_le_guin@gmail.com", false));
    assert_eq!(500, stored(false));
    assert_eq!(400, status_of("le guin", "not an address", false));
}
