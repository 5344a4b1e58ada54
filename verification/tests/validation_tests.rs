use transform::validate::find_target;
use transform::{
    convert_bytes_to_string, mask, obfuscate, overwrite, validate_request, Kind, Request,
    TransformError,
};

const DOCUMENT: &str =
    r#"{"foo":"bar","baz":{"qux":"quux"},"recipient":"tledwichb9@wsj.com","bool":true}"#;

fn request(data: &[u8], path: &str, value: &str) -> Request {
    Request { data: data.to_vec(), path: path.to_string(), value: value.to_string() }
}

fn message<T>(outcome: Result<T, TransformError>) -> String {
    match outcome {
        Ok(_) => panic!("the request should have been refused"),
        Err(TransformError::Generic(text)) => text,
    }
}

#[test]
fn valid_request_passes_every_check() {
    let req = request(DOCUMENT.as_bytes(), "baz.qux", "\"test\"");
    assert!(validate_request(&req, true).is_ok());
    assert!(validate_request(&req, false).is_ok());
}

#[test]
fn empty_path_is_reported_whatever_the_document_holds() {
    let documents: [&[u8]; 4] = [DOCUMENT.as_bytes(), b"", b"{not json", &[0xff, 0xfe]];
    for data in documents {
        let req = request(data, "", "");
        assert_eq!(message(validate_request(&req, true)), "path cannot be empty");
        assert_eq!(message(validate_request(&req, false)), "path cannot be empty");
        assert_eq!(message(overwrite(&req)), "path cannot be empty");
        assert_eq!(message(obfuscate(&req)), "path cannot be empty");
        assert_eq!(message(mask(&req)), "path cannot be empty");
    }
}

#[test]
fn empty_document_is_reported_before_the_value() {
    let req = request(b"", "foo", "");
    assert_eq!(message(validate_request(&req, true)), "data cannot be empty");
    assert_eq!(message(overwrite(&req)), "data cannot be empty");
    assert_eq!(message(obfuscate(&req)), "data cannot be empty");
    assert_eq!(message(mask(&req)), "data cannot be empty");
}

#[test]
fn empty_value_is_reported_only_where_a_value_is_needed() {
    let req = request(DOCUMENT.as_bytes(), "foo", "");
    assert_eq!(message(validate_request(&req, true)), "value cannot be empty");
    assert_eq!(message(overwrite(&req)), "value cannot be empty");
    assert!(validate_request(&req, false).is_ok());
    assert!(obfuscate(&req).is_ok());
    assert!(mask(&req).is_ok());
}

#[test]
fn empty_value_is_reported_before_the_document_is_read() {
    let req = request(&[b'{', 0xff, b'}'], "foo", "");
    assert_eq!(message(overwrite(&req)), "value cannot be empty");
    let req = request(b"{not json", "foo", "");
    assert_eq!(message(overwrite(&req)), "value cannot be empty");
}

#[test]
fn bytes_that_are_not_utf8_are_reported() {
    let req = request(&[b'{', 0xff, b'}'], "foo", "1");
    for text in [
        message(validate_request(&req, true)),
        message(overwrite(&req)),
        message(obfuscate(&req)),
        message(mask(&req)),
    ] {
        assert!(text.starts_with("unable to parse data as UTF-8: "), "{}", text);
        assert!(text.len() > "unable to parse data as UTF-8: ".len());
    }
}

#[test]
fn encoding_is_checked_before_syntax() {
    // Neither UTF-8 nor JSON: the encoding is what is reported.
    let req = request(&[b'[', b'[', 0xc3], "0", "1");
    assert!(message(mask(&req)).starts_with("unable to parse data as UTF-8: "));
}

#[test]
fn text_that_is_not_json_is_reported_with_the_text() {
    let req = request(b"{\"foo\": ", "foo", "1");
    assert_eq!(message(validate_request(&req, true)), "data is not valid JSON: {\"foo\": ");
    assert_eq!(message(overwrite(&req)), "data is not valid JSON: {\"foo\": ");
    assert_eq!(message(obfuscate(&req)), "data is not valid JSON: {\"foo\": ");
    assert_eq!(message(mask(&req)), "data is not valid JSON: {\"foo\": ");
}

#[test]
fn syntax_is_checked_before_the_path() {
    // The path would be found by a reader that does not validate.
    let req = request(b"{\"foo\": \"bar\", ", "foo", "1");
    assert_eq!(message(mask(&req)), "data is not valid JSON: {\"foo\": \"bar\", ");
}

#[test]
fn missing_path_is_reported_with_the_path() {
    let req = request(DOCUMENT.as_bytes(), "does-not-exist", "1");
    assert_eq!(
        message(validate_request(&req, true)),
        "path 'does-not-exist' not found in data"
    );
    assert_eq!(message(overwrite(&req)), "path 'does-not-exist' not found in data");
    assert_eq!(message(obfuscate(&req)), "path 'does-not-exist' not found in data");
    assert_eq!(message(mask(&req)), "path 'does-not-exist' not found in data");
    let req = request(DOCUMENT.as_bytes(), "baz.nothing", "1");
    assert_eq!(message(mask(&req)), "path 'baz.nothing' not found in data");
}

#[test]
fn well_formed_bytes_become_text_unchanged() {
    let bytes = "{\"k\":\"h\u{e9}llo \u{4e16}\u{754c}\"}".as_bytes().to_vec();
    let text = convert_bytes_to_string(&bytes).unwrap();
    assert_eq!(text, "{\"k\":\"h\u{e9}llo \u{4e16}\u{754c}\"}");
    assert_eq!(text.as_bytes(), bytes.as_slice());
    let empty: Vec<u8> = Vec::new();
    assert_eq!(convert_bytes_to_string(&empty).unwrap(), "");
}

#[test]
fn malformed_bytes_do_not_become_text() {
    for bytes in [vec![0xffu8], vec![b'a', 0xc3], vec![0xed, 0xa0, 0x80], vec![0xc0, 0x80]] {
        let text = message(convert_bytes_to_string(&bytes));
        assert!(text.starts_with("unable to parse data as UTF-8: "), "{}", text);
    }
}

#[test]
fn valid_request_gives_its_document_and_its_target() {
    let req = request(DOCUMENT.as_bytes(), "baz.qux", "");
    let (document, found) = find_target(&req, false).unwrap();
    assert_eq!(document, DOCUMENT);
    assert_eq!(found.kind, Kind::String);
    assert_eq!(found.text, "\"quux\"");
    assert_eq!(found.offset, Some(26));
    assert_eq!(&DOCUMENT[26..32], "\"quux\"");

    let req = request(DOCUMENT.as_bytes(), "bool", "");
    let (_, found) = find_target(&req, false).unwrap();
    assert_eq!((found.kind, found.text.as_str()), (Kind::Bool, "true"));

    let req = request(b"[1.5, null, {}, []]", "0", "");
    let (_, found) = find_target(&req, false).unwrap();
    assert_eq!((found.kind, found.text.as_str(), found.offset), (Kind::Number, "1.5", Some(1)));
    let req = request(b"[1.5, null, {}, []]", "1", "");
    let (_, found) = find_target(&req, false).unwrap();
    assert_eq!((found.kind, found.text.as_str()), (Kind::Null, "null"));
    let req = request(b"[1.5, null, {}, [false]]", "2", "");
    let (_, found) = find_target(&req, false).unwrap();
    assert_eq!((found.kind, found.text.as_str()), (Kind::Object, "{}"));
    let req = request(b"[1.5, null, {}, [false]]", "3", "");
    let (_, found) = find_target(&req, false).unwrap();
    assert_eq!((found.kind, found.text.as_str()), (Kind::Array, "[false]"));
    let req = request(b"[1.5, null, {}, [false]]", "3.0", "");
    let (_, found) = find_target(&req, false).unwrap();
    assert_eq!((found.kind, found.text.as_str()), (Kind::Bool, "false"));
}

#[test]
fn invalid_request_gives_no_target() {
    let req = request(DOCUMENT.as_bytes(), "nothing", "");
    assert_eq!(message(find_target(&req, false)), "path 'nothing' not found in data");
    // A string that a modifier leaves without its end is not found.
    let req = request(b"1", "@pretty:{\"prefix\":\"\\\"\"}", "");
    assert_eq!(
        message(mask(&req)),
        "path '@pretty:{\"prefix\":\"\\\"\"}' not found in data"
    );
}

#[test]
fn error_gives_its_words() {
    let req = request(DOCUMENT.as_bytes(), "", "");
    let error = mask(&req).unwrap_err();
    assert_eq!(error.message(), "path cannot be empty");
    let TransformError::Generic(text) = &error;
    assert_eq!(error.message(), text.as_str());
    assert_eq!(format!("{:?}", error), "Generic(\"path cannot be empty\")");
}
