use sorcerer::error::ValidationError;
use sorcerer::json::JsonValue;

#[test]
fn a_document_is_kept_as_it_was_written() {
    let value = JsonValue::parse("{ \"a\" : [1, 2,  3] }").unwrap();
    assert_eq!(value.as_str(), "{ \"a\" : [1, 2,  3] }");
}

#[test]
fn scalars_are_documents() {
    assert_eq!(JsonValue::parse(" 42 ").unwrap().as_str(), " 42 ");
    assert_eq!(JsonValue::parse("\"text\"").unwrap().as_str(), "\"text\"");
    assert_eq!(JsonValue::parse("null").unwrap().as_str(), "null");
    assert_eq!(JsonValue::parse("true").unwrap().as_str(), "true");
    assert_eq!(JsonValue::parse("{}").unwrap().as_str(), "{}");
}

#[test]
fn the_empty_text_is_no_document() {
    let error = JsonValue::parse("").unwrap_err();
    assert_eq!(error.reason, "EOF while parsing a value at line 1 column 0");
}

#[test]
fn a_broken_text_is_no_document() {
    assert!(JsonValue::parse("{\"a\":").is_err());
    assert!(JsonValue::parse("echo 1").is_err());
    assert!(JsonValue::parse("{} {}").is_err());
}

#[test]
fn a_text_that_was_accepted_becomes_the_document() {
    let value = JsonValue::from_reading("[1]", Ok(())).unwrap();
    assert_eq!(value.as_str(), "[1]");
    assert_eq!(value.clone(), value);
}

#[test]
fn a_text_that_was_not_accepted_becomes_a_validation_error() {
    assert_eq!(
        JsonValue::from_reading("[1", Err("EOF while parsing a list".to_string())),
        Err(ValidationError { reason: "EOF while parsing a list".to_string() })
    );
}

#[test]
fn a_text_with_something_after_the_document_is_no_document() {
    let error = JsonValue::parse("{} {}").unwrap_err();
    assert_eq!(error.reason, "trailing characters at line 1 column 4");
}
