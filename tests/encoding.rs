use rust_simple::json::{encode_member, quote};
use rust_simple::response::{GreetingResponse, HealthResponse, GREETING, HEALTHY};

#[test]
fn quote_plain_text() {
    assert_eq!(quote("healthy"), "\"healthy\"");
    assert_eq!(quote(""), "\"\"");
}

#[test]
fn quote_escapes_quote_and_backslash() {
    assert_eq!(quote("a\"b\\c"), "\"a\\\"b\\\\c\"");
}

#[test]
fn quote_escapes_control_characters() {
    assert_eq!(quote("\n\t\r\u{8}\u{c}"), "\"\\n\\t\\r\\b\\f\"");
    assert_eq!(quote("\u{1}\u{1f}"), "\"\\u0001\\u001f\"");
}

#[test]
fn quote_keeps_other_characters() {
    assert_eq!(quote("é/\u{7f}"), "\"é/\u{7f}\"");
}

#[test]
fn member_object_is_compact() {
    assert_eq!(encode_member("k", "v"), "{\"k\":\"v\"}");
    assert_eq!(encode_member("a\"", "\n"), "{\"a\\\"\":\"\\n\"}");
}

#[test]
fn greeting_record_encodes() {
    let record = GreetingResponse::new();
    assert_eq!(record.message, GREETING);
    let (body, content_type) = record.encode();
    assert_eq!(body, b"{\"message\":\"Hello from Rust!\"}".to_vec());
    assert_eq!(content_type, "application/json");
}

#[test]
fn health_record_encodes() {
    let record = HealthResponse::new();
    assert_eq!(record.status, HEALTHY);
    let (body, content_type) = record.encode();
    assert_eq!(body, b"{\"status\":\"healthy\"}".to_vec());
    assert_eq!(content_type, "application/json");
}

#[test]
fn record_with_other_value_round_trips() {
    let record = GreetingResponse { message: "say \"hi\"".to_string() };
    let (body, _) = record.encode();
    assert_eq!(body, b"{\"message\":\"say \\\"hi\\\"\"}".to_vec());
    let value: serde_json::Value = serde_json::from_slice(&body).expect("body is JSON");
    assert_eq!(value["message"], "say \"hi\"");
}
