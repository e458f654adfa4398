use email_news::json::{push_escaped_char, push_json_member, push_json_string};

fn quoted(s: &str) -> String {
    let mut out = String::new();
    push_json_string(&mut out, s);
    out
}

#[test]
fn plain_text_stands_between_quotes() {
    assert_eq!(quoted(""), "\"\"");
    assert_eq!(quoted("Hello"), "\"Hello\"");
    assert_eq!(quoted("a/b"), "\"a/b\"");
    assert_eq!(quoted("é 漢 \u{1F600} \u{7f}"), "\"é 漢 \u{1F600} \u{7f}\"");
}

#[test]
fn quote_backslash_and_controls_are_escaped() {
    assert_eq!(quoted("\""), "\"\\\"\"");
    assert_eq!(quoted("\\"), "\"\\\\\"");
    assert_eq!(quoted("\u{8}\t\n\u{c}\r"), "\"\\b\\t\\n\\f\\r\"");
    assert_eq!(quoted("\u{0}"), "\"\\u0000\"");
    assert_eq!(quoted("\u{b}"), "\"\\u000b\"");
    assert_eq!(quoted("\u{1f}"), "\"\\u001f\"");
    assert_eq!(quoted("\u{1e}a"), "\"\\u001ea\"");
}

#[test]
fn appending_keeps_what_was_there() {
    let mut out = String::from("x=");
    push_json_string(&mut out, "a\"b");
    assert_eq!(out, "x=\"a\\\"b\"");
    push_escaped_char(&mut out, '\n');
    push_escaped_char(&mut out, 'z');
    assert_eq!(out, "x=\"a\\\"b\"\\nz");
}

#[test]
fn a_member_is_key_colon_value() {
    let mut out = String::from("{");
    push_json_member(&mut out, "Subject", "Hi \"there\"");
    out.push('}');
    assert_eq!(out, "{\"Subject\":\"Hi \\\"there\\\"\"}");
    let value: serde_json::Value = serde_json::from_str(&out).unwrap();
    assert_eq!(value["Subject"].as_str(), Some("Hi \"there\""));
}

#[test]
fn every_character_is_written_as_the_reference_serializer_writes_it() {
    for c in (0..=0x10FFFFu32).filter_map(char::from_u32) {
        let s = c.to_string();
        assert_eq!(quoted(&s), serde_json::to_string(&s).unwrap());
    }
}

#[test]
fn every_string_reads_back() {
    for s in ["", "plain", "\"\\\"", "\u{0}\u{1}\u{2}\u{1f} \u{20}", "line\r\nbreak\ttab", "𝄞 clef"] {
        let back: String = serde_json::from_str(&quoted(s)).unwrap();
        assert_eq!(back, s);
    }
}
