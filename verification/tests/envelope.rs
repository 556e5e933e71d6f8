use edgelet_http_workload::envelope::ErrorResponse;
use edgelet_http_workload::envelope::ParseError;

#[test]
fn new_returns_message() {
    let e = ErrorResponse::new("identity not found".to_string());
    assert_eq!(e.message(), "identity not found");
}

#[test]
fn new_keeps_unicode_message() {
    let e = ErrorResponse::new("géén identiteit".to_string());
    assert_eq!(e.message(), "géén identiteit");
}

#[test]
fn set_message_replaces_text() {
    let mut e = ErrorResponse::new("first".to_string());
    e.set_message("second".to_string());
    assert_eq!(e.message(), "second");
}

#[test]
fn with_message_replaces_text() {
    let e = ErrorResponse::new("first".to_string());
    let e = e.with_message("second".to_string());
    assert_eq!(e.message(), "second");
}

#[test]
fn with_message_idempotent() {
    let once = ErrorResponse::new("first".to_string()).with_message("second".to_string());
    let twice = ErrorResponse::new("first".to_string())
        .with_message("second".to_string())
        .with_message("second".to_string());
    assert_eq!(once.message(), twice.message());
}

#[test]
fn to_json_exact_wire_form() {
    let e = ErrorResponse::new("identity not found".to_string());
    let wire = e.to_json().unwrap();
    assert_eq!(wire, "{\"message\":\"identity not found\"}");
}

#[test]
fn to_json_escapes_quotes() {
    let e = ErrorResponse::new("a\"b".to_string());
    let wire = e.to_json().unwrap();
    assert_eq!(wire, "{\"message\":\"a\\\"b\"}");
}

#[test]
fn round_trip() {
    let e = ErrorResponse::new("not \"found\"\n".to_string());
    let wire = e.to_json().unwrap();
    let back = ErrorResponse::from_json(&wire).unwrap();
    assert_eq!(back.message(), e.message());
}

#[test]
fn round_trip_empty_message() {
    let e = ErrorResponse::new(String::new());
    let wire = e.to_json().unwrap();
    assert_eq!(wire, "{\"message\":\"\"}");
    let back = ErrorResponse::from_json(&wire).unwrap();
    assert_eq!(back.message(), "");
}

#[test]
fn from_json_plain_object() {
    let back = ErrorResponse::from_json("{\"message\": \"hello\"}").unwrap();
    assert_eq!(back.message(), "hello");
}

#[test]
fn from_json_ignores_unknown_fields() {
    let back = ErrorResponse::from_json("{\"message\": \"hello\", \"extra\": true}").unwrap();
    assert_eq!(back.message(), "hello");
}

#[test]
fn from_json_wrong_type_is_schema_mismatch() {
    let r = ErrorResponse::from_json("{\"message\": 5}");
    assert_eq!(r.unwrap_err(), ParseError::SchemaMismatch);
}

#[test]
fn from_json_missing_field_is_schema_mismatch() {
    let r = ErrorResponse::from_json("{}");
    assert_eq!(r.unwrap_err(), ParseError::SchemaMismatch);
}

#[test]
fn from_json_non_object_is_schema_mismatch() {
    let r = ErrorResponse::from_json("5");
    assert_eq!(r.unwrap_err(), ParseError::SchemaMismatch);
}

#[test]
fn from_json_malformed_is_schema_mismatch() {
    let r = ErrorResponse::from_json("{\"message\": \"unterminated");
    assert_eq!(r.unwrap_err(), ParseError::SchemaMismatch);
}
