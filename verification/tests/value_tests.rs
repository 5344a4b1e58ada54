use transform::accessor::holds_at;
use transform::{Kind, Value};

fn value(kind: Kind, text: &str, offset: Option<usize>) -> Value {
    Value { kind, text: text.to_string(), offset }
}

#[test]
fn value_is_present_when_its_text_is_not_empty() {
    assert!(value(Kind::String, "\"a\"", Some(0)).is_present());
    assert!(value(Kind::Number, "0", None).is_present());
    assert!(!value(Kind::Null, "", None).is_present());
    assert!(!value(Kind::String, "", Some(3)).is_present());
}

#[test]
fn string_is_readable_when_it_has_room_for_its_quotes() {
    assert!(value(Kind::String, "\"\"", None).is_readable());
    assert!(value(Kind::String, "\"abc\"", None).is_readable());
    assert!(!value(Kind::String, "\"", None).is_readable());
    assert!(!value(Kind::String, "", None).is_readable());
    // One character of two bytes is room enough.
    assert!(value(Kind::String, "\u{e9}", None).is_readable());
    for kind in [Kind::Number, Kind::Bool, Kind::Object, Kind::Array, Kind::Null] {
        assert!(value(kind, "", None).is_readable());
        assert!(value(kind, "1", None).is_readable());
    }
}

#[test]
fn value_lies_where_the_document_holds_its_text() {
    let document = r#"{"a":"b","c":12}"#;
    assert!(value(Kind::String, "\"b\"", Some(5)).lies_in(document));
    assert!(value(Kind::Number, "12", Some(13)).lies_in(document));
    assert!(value(Kind::Object, document, Some(0)).lies_in(document));
    assert!(value(Kind::Null, "", Some(16)).lies_in(document));
}

#[test]
fn value_does_not_lie_elsewhere() {
    let document = r#"{"a":"b","c":12}"#;
    // No offset, another offset, another text, a text that runs past the end.
    assert!(!value(Kind::String, "\"b\"", None).lies_in(document));
    assert!(!value(Kind::String, "\"b\"", Some(4)).lies_in(document));
    assert!(!value(Kind::String, "\"x\"", Some(5)).lies_in(document));
    assert!(!value(Kind::Number, "123", Some(13)).lies_in(document));
    assert!(!value(Kind::Number, "12", Some(15)).lies_in(document));
    assert!(!value(Kind::Number, "12", Some(17)).lies_in(document));
    assert!(!value(Kind::Number, "12", Some(usize::MAX)).lies_in(document));
    assert!(!value(Kind::Null, "", Some(17)).lies_in(document));
}

#[test]
fn value_lies_between_whole_characters() {
    let document = "[\"\u{e9}\"]";
    assert!(value(Kind::String, "\"\u{e9}\"", Some(1)).lies_in(document));
    // An empty text between the two bytes of one character.
    assert!(!value(Kind::Null, "", Some(3)).lies_in(document));
    assert!(value(Kind::Null, "", Some(2)).lies_in(document));
    assert!(value(Kind::Null, "", Some(4)).lies_in(document));
}

#[test]
fn part_is_held_where_the_bytes_agree() {
    assert!(holds_at(b"abcdef", 2, b"cd"));
    assert!(holds_at(b"abcdef", 0, b"abcdef"));
    assert!(holds_at(b"abcdef", 6, b""));
    assert!(holds_at(b"", 0, b""));
    assert!(!holds_at(b"abcdef", 2, b"cx"));
    assert!(!holds_at(b"abcdef", 1, b"cd"));
    assert!(holds_at(b"abcdef", 3, b"def"));
}

#[test]
fn part_is_not_held_past_the_end() {
    assert!(!holds_at(b"abcdef", 4, b"efg"));
    assert!(!holds_at(b"abcdef", 7, b""));
    assert!(!holds_at(b"abc", 0, b"abcd"));
    assert!(!holds_at(b"abc", usize::MAX, b"a"));
    assert!(!holds_at(b"", 1, b""));
}

#[test]
fn value_is_replaced_where_it_lies() {
    let document = r#"{"a":"b","c":12}"#;
    let found = value(Kind::String, "\"b\"", Some(5));
    assert_eq!(found.replace_in(document, "null").unwrap(), r#"{"a":null,"c":12}"#);
    assert_eq!(found.replace_in(document, "").unwrap(), r#"{"a":,"c":12}"#);
    let found = value(Kind::Number, "12", Some(13));
    assert_eq!(found.replace_in(document, "[1, 2]").unwrap(), r#"{"a":"b","c":[1, 2]}"#);
    let found = value(Kind::Object, document, Some(0));
    assert_eq!(found.replace_in(document, "{}").unwrap(), "{}");
}

#[test]
fn value_is_not_replaced_where_it_does_not_lie() {
    let document = r#"{"a":"b","c":12}"#;
    assert!(value(Kind::String, "\"b\"", None).replace_in(document, "1").is_none());
    assert!(value(Kind::String, "\"b\"", Some(6)).replace_in(document, "1").is_none());
    assert!(value(Kind::Number, "13", Some(13)).replace_in(document, "1").is_none());
    assert!(value(Kind::Number, "12", Some(usize::MAX - 1)).replace_in(document, "1").is_none());
}

#[test]
fn value_is_replaced_between_whole_characters() {
    let document = "[\"\u{e9}\",\"\u{4e16}\"]";
    let found = value(Kind::String, "\"\u{4e16}\"", Some(6));
    assert_eq!(found.replace_in(document, "\"\u{754c}\"").unwrap(), "[\"\u{e9}\",\"\u{754c}\"]");
}
