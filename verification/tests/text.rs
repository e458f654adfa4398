use email_news::text::{blank, digit_of, push_decimal};

fn has_white_space_property(c: char) -> bool {
    matches!(
        c as u32,
        0x09..=0x0D
            | 0x20
            | 0x85
            | 0xA0
            | 0x1680
            | 0x2000..=0x200A
            | 0x2028
            | 0x2029
            | 0x202F
            | 0x205F
            | 0x3000
    )
}

#[test]
fn blank_knows_exactly_the_white_space_characters() {
    for c in (0..=0x10FFFFu32).filter_map(char::from_u32) {
        assert_eq!(blank(&c.to_string()), has_white_space_property(c));
    }
}

#[test]
fn blank_is_what_trimming_to_nothing_is() {
    for s in ["", " ", "\t \n", " a ", "a", "\u{3000}\u{2003}", " \u{200b} ", "\u{feff}"] {
        assert_eq!(blank(s), s.trim().is_empty());
    }
}

#[test]
fn digits_run_from_zero_to_f() {
    let digits: String = (0..16).map(digit_of).collect();
    assert_eq!(digits, "0123456789abcdef");
}

#[test]
fn decimal_is_written_without_leading_zeros() {
    for n in [0u16, 7, 9, 10, 42, 99, 100, 8000, 9999, 10000, 65535] {
        let mut out = String::from(":");
        push_decimal(&mut out, n);
        assert_eq!(out, format!(":{}", n));
    }
}
