use backend::builder::ChatBody;
use backend::error::GatewayError;
use backend::request::{ChatMessage, Sampling};
use backend::wire::{BodyField, FieldValue};

fn text(name: &str, value: &str) -> BodyField {
    BodyField { name: name.to_string(), value: FieldValue::Text(value.to_string()) }
}

fn named(name: &str, value: FieldValue) -> BodyField {
    BodyField { name: name.to_string(), value }
}

#[test]
fn local_error_has_the_given_parts_and_no_upstream_status() {
    assert_eq!(
        GatewayError::local(503, "down", "detail".to_string(), "X_DOWN"),
        GatewayError {
            http_status: 503,
            error: "down".to_string(),
            message: "detail".to_string(),
            code: "X_DOWN".to_string(),
            upstream_status: None,
        }
    );
}

#[test]
fn error_body_without_upstream_status_has_three_members() {
    let e = GatewayError::local(400, "Invalid request", "nothing to do".to_string(), "INVALID_QUERY");
    assert_eq!(
        e.body(),
        vec![
            text("error", "Invalid request"),
            text("message", "nothing to do"),
            text("code", "INVALID_QUERY"),
        ]
    );
}

#[test]
fn error_body_with_upstream_status_ends_with_it() {
    let e = GatewayError {
        http_status: 500,
        error: "Geocoding service error".to_string(),
        message: "teapot".to_string(),
        code: "GEOCODE_ERROR".to_string(),
        upstream_status: Some(1418),
    };
    assert_eq!(
        e.body(),
        vec![
            text("error", "Geocoding service error"),
            text("message", "teapot"),
            text("code", "GEOCODE_ERROR"),
            named("status", FieldValue::Unsigned(1418)),
        ]
    );
}

#[test]
fn error_body_status_is_the_upstream_one_not_the_replys() {
    let e = GatewayError {
        http_status: 500,
        error: String::new(),
        message: String::new(),
        code: String::new(),
        upstream_status: Some(u16::MAX),
    };
    assert_eq!(e.body()[3], named("status", FieldValue::Unsigned(65535)));
}

#[test]
fn chat_body_without_controls_has_model_and_messages_only() {
    let messages = vec![ChatMessage { role: "user".to_string(), content: "hi".to_string() }];
    let body = ChatBody {
        model: "m".to_string(),
        messages: messages.clone(),
        max_tokens: None,
        temperature: None,
        top_p: None,
        stream: None,
    };
    assert_eq!(
        body.into_fields(),
        vec![text("model", "m"), named("messages", FieldValue::Messages(messages))]
    );
}

#[test]
fn chat_body_lists_each_control_that_is_set() {
    let body = ChatBody {
        model: "m".to_string(),
        messages: vec![],
        max_tokens: Some(0),
        temperature: Some(Sampling { bits: 0 }),
        top_p: Some(Sampling { bits: 0x3f80_0000 }),
        stream: Some(true),
    };
    assert_eq!(
        body.into_fields(),
        vec![
            text("model", "m"),
            named("messages", FieldValue::Messages(vec![])),
            named("max_tokens", FieldValue::Unsigned(0)),
            named("temperature", FieldValue::Sampling(Sampling { bits: 0 })),
            named("top_p", FieldValue::Sampling(Sampling { bits: 0x3f80_0000 })),
            named("stream", FieldValue::Flag(true)),
        ]
    );
}

#[test]
fn chat_body_leaves_out_exactly_the_unset_controls() {
    let body = ChatBody {
        model: "m".to_string(),
        messages: vec![],
        max_tokens: None,
        temperature: Some(Sampling { bits: 7 }),
        top_p: None,
        stream: Some(false),
    };
    assert_eq!(
        body.into_fields(),
        vec![
            text("model", "m"),
            named("messages", FieldValue::Messages(vec![])),
            named("temperature", FieldValue::Sampling(Sampling { bits: 7 })),
            named("stream", FieldValue::Flag(false)),
        ]
    );
}
