use backend::error::GatewayError;
use backend::invoker::{TransportKind, UpstreamOutcome};
use backend::provider::Provider;
use backend::translator::{
    lookup_status, parse_fault, pass_through, passed_status, transport_fault, translate,
    upstream_fault, PassthroughBody, StatusEntry, STATUS_OK,
};

const PROVIDERS: [Provider; 3] =
    [Provider::ChatCompletion, Provider::Geocode, Provider::GenerativeAi];

fn row(summary: &'static str, code: &'static str) -> StatusEntry {
    StatusEntry { summary, code }
}

fn success(body: &[u8]) -> UpstreamOutcome {
    UpstreamOutcome::Success { status: 200, body: Some(body.to_vec()) }
}

fn parse_error_of(provider: Provider) -> GatewayError {
    let (error, message, code) = match provider {
        Provider::ChatCompletion => (
            "Failed to parse AI response",
            "The AI service returned an invalid response format",
            "AI_PARSE_ERROR",
        ),
        Provider::Geocode => (
            "Failed to parse geocoding response",
            "The geocoding service returned an invalid response format",
            "GEOCODE_PARSE_ERROR",
        ),
        Provider::GenerativeAi => (
            "Failed to parse Gemini response",
            "The Gemini API returned an invalid response format",
            "GEMINI_PARSE_ERROR",
        ),
    };
    GatewayError {
        http_status: 502,
        error: error.to_string(),
        message: message.to_string(),
        code: code.to_string(),
        upstream_status: None,
    }
}

#[test]
fn chat_status_table() {
    let p = Provider::ChatCompletion;
    assert_eq!(lookup_status(p, 400), row("Invalid AI service request", "AI_BAD_REQUEST"));
    assert_eq!(
        lookup_status(p, 401),
        row("Invalid or expired AI service API key", "AI_UNAUTHORIZED")
    );
    assert_eq!(lookup_status(p, 403), row("AI service access forbidden", "AI_FORBIDDEN"));
    assert_eq!(
        lookup_status(p, 429),
        row("Too many AI requests. Please try again later", "AI_RATE_LIMIT")
    );
    assert_eq!(lookup_status(p, 500), row("AI service internal error", "AI_SERVER_ERROR"));
    assert_eq!(lookup_status(p, 503), row("AI service temporarily unavailable", "AI_UNAVAILABLE"));
    for status in [0u16, 300, 402, 404, 418, 502, 504, 999, u16::MAX] {
        assert_eq!(lookup_status(p, status), row("AI service error", "AI_ERROR"));
    }
}

#[test]
fn geocode_status_table() {
    let p = Provider::Geocode;
    assert_eq!(
        lookup_status(p, 401),
        row("Invalid or expired OpenCage API key", "GEOCODE_UNAUTHORIZED")
    );
    assert_eq!(lookup_status(p, 402), row("OpenCage API quota exceeded", "GEOCODE_QUOTA_EXCEEDED"));
    assert_eq!(lookup_status(p, 403), row("OpenCage API access forbidden", "GEOCODE_FORBIDDEN"));
    assert_eq!(
        lookup_status(p, 429),
        row("Too many geocoding requests. Please try again later", "GEOCODE_RATE_LIMIT")
    );
    for status in [0u16, 300, 400, 404, 500, 503, 999, u16::MAX] {
        assert_eq!(lookup_status(p, status), row("Geocoding service error", "GEOCODE_ERROR"));
    }
}

#[test]
fn generation_status_table() {
    let p = Provider::GenerativeAi;
    assert_eq!(lookup_status(p, 400), row("Invalid Gemini API request", "GEMINI_BAD_REQUEST"));
    assert_eq!(
        lookup_status(p, 401),
        row("Invalid or expired Gemini API key", "GEMINI_UNAUTHORIZED")
    );
    assert_eq!(lookup_status(p, 403), row("Gemini API access forbidden", "GEMINI_FORBIDDEN"));
    assert_eq!(
        lookup_status(p, 429),
        row("Too many AI requests. Please try again later", "GEMINI_RATE_LIMIT")
    );
    assert_eq!(lookup_status(p, 500), row("Gemini service internal error", "GEMINI_SERVER_ERROR"));
    assert_eq!(
        lookup_status(p, 503),
        row("Gemini service temporarily unavailable", "GEMINI_UNAVAILABLE")
    );
    for status in [0u16, 300, 402, 404, 418, 502, 504, 999, u16::MAX] {
        assert_eq!(lookup_status(p, status), row("Gemini AI service error", "GEMINI_ERROR"));
    }
}

#[test]
fn quota_row_is_the_geocoders_alone() {
    assert_eq!(lookup_status(Provider::Geocode, 402).code, "GEOCODE_QUOTA_EXCEEDED");
    assert_eq!(lookup_status(Provider::ChatCompletion, 402).code, "AI_ERROR");
    assert_eq!(lookup_status(Provider::GenerativeAi, 402).code, "GEMINI_ERROR");
}

#[test]
fn legal_statuses_pass_through() {
    for status in [100u16, 101, 199, 200, 302, 404, 429, 500, 599, 600, 998, 999] {
        assert_eq!(passed_status(status), status);
    }
}

#[test]
fn illegal_statuses_fall_back_to_500() {
    for status in [0u16, 1, 42, 99, 1000, 1001, 9999, u16::MAX] {
        assert_eq!(passed_status(status), 500);
    }
}

#[test]
fn rate_limit_is_passed_on_with_the_providers_text() {
    let codes = ["AI_RATE_LIMIT", "GEOCODE_RATE_LIMIT", "GEMINI_RATE_LIMIT"];
    for (provider, code) in PROVIDERS.iter().zip(codes) {
        let outcome = UpstreamOutcome::UpstreamError {
            status: 429,
            body: "{\"detail\":\"quota of 10 rpm exceeded\"}".to_string(),
        };
        let e = translate(*provider, outcome).unwrap_err();
        assert_eq!(e.http_status, 429);
        assert_eq!(e.code, code);
        assert_eq!(e.message, "{\"detail\":\"quota of 10 rpm exceeded\"}");
        assert_eq!(e.upstream_status, Some(429));
    }
}

#[test]
fn upstream_fault_with_illegal_status_keeps_it_as_upstream_status() {
    let e = upstream_fault(Provider::Geocode, 1234, "odd".to_string());
    assert_eq!(
        e,
        GatewayError {
            http_status: 500,
            error: "Geocoding service error".to_string(),
            message: "odd".to_string(),
            code: "GEOCODE_ERROR".to_string(),
            upstream_status: Some(1234),
        }
    );
}

#[test]
fn upstream_fault_for_a_redirect_passes_the_status() {
    let e = upstream_fault(Provider::ChatCompletion, 302, String::new());
    assert_eq!(
        e,
        GatewayError {
            http_status: 302,
            error: "AI service error".to_string(),
            message: String::new(),
            code: "AI_ERROR".to_string(),
            upstream_status: Some(302),
        }
    );
}

#[test]
fn valid_json_passes_through_byte_for_byte() {
    for provider in PROVIDERS {
        assert_eq!(
            translate(provider, success(b"{\"foo\":\"bar\"}")),
            Ok(PassthroughBody { http_status: 200, body: b"{\"foo\":\"bar\"}".to_vec() })
        );
    }
}

#[test]
fn passthrough_keeps_white_space_member_order_and_duplicates() {
    let body = b" {\n  \"z\": 1,\r\n\t\"a\": [1, 2.50, -3e2],\n  \"z\": null\n}\n ";
    assert_eq!(
        translate(Provider::Geocode, success(body)),
        Ok(PassthroughBody { http_status: STATUS_OK, body: body.to_vec() })
    );
}

#[test]
fn any_json_value_is_a_document() {
    for body in ["42", "null", "true", "\"text\"", "[]", "{}", "[{\"a\":[{}]}]", "\"\\u00e9\""] {
        assert_eq!(
            translate(Provider::ChatCompletion, success(body.as_bytes())),
            Ok(PassthroughBody { http_status: 200, body: body.as_bytes().to_vec() })
        );
    }
}

#[test]
fn success_reply_is_always_200() {
    let outcome = UpstreamOutcome::Success { status: 201, body: Some(b"{}".to_vec()) };
    assert_eq!(
        translate(Provider::GenerativeAi, outcome),
        Ok(PassthroughBody { http_status: 200, body: b"{}".to_vec() })
    );
}

#[test]
fn invalid_json_is_a_parse_error() {
    let bodies: [&[u8]; 9] = [
        b"not json",
        b"",
        b"   ",
        b"{\"foo\":",
        b"{\"foo\":\"bar\"} trailing",
        b"{'foo':'bar'}",
        b"[1,]",
        b"<html></html>",
        b"\"\xff\"",
    ];
    for provider in PROVIDERS {
        for body in bodies {
            assert_eq!(translate(provider, success(body)), Err(parse_error_of(provider)));
        }
    }
}

#[test]
fn json_nested_too_deeply_is_a_parse_error() {
    let mut body = Vec::new();
    body.extend(std::iter::repeat(b'[').take(200));
    body.extend(std::iter::repeat(b']').take(200));
    assert_eq!(
        translate(Provider::ChatCompletion, success(&body)),
        Err(parse_error_of(Provider::ChatCompletion))
    );
}

#[test]
fn unreadable_success_body_is_a_parse_error() {
    for provider in PROVIDERS {
        let outcome = UpstreamOutcome::Success { status: 200, body: None };
        assert_eq!(translate(provider, outcome), Err(parse_error_of(provider)));
        assert_eq!(parse_fault(provider), parse_error_of(provider));
    }
}

#[test]
fn timeout_is_503_for_every_provider() {
    let expected = [
        ("AI request timed out", "Failed to reach AI service: deadline", "AI_TIMEOUT"),
        ("Geocoding request timed out", "Failed to reach OpenCage API: deadline", "GEOCODE_TIMEOUT"),
        ("Gemini request timed out", "Failed to reach Gemini API: deadline", "GEMINI_TIMEOUT"),
    ];
    for (provider, (error, message, code)) in PROVIDERS.iter().zip(expected) {
        let outcome = UpstreamOutcome::TransportFailure {
            kind: TransportKind::Timeout,
            detail: "deadline".to_string(),
        };
        assert_eq!(
            translate(*provider, outcome),
            Err(GatewayError {
                http_status: 503,
                error: error.to_string(),
                message: message.to_string(),
                code: code.to_string(),
                upstream_status: None,
            })
        );
    }
}

#[test]
fn connection_failure_is_503_for_every_provider() {
    let expected = [
        ("Cannot connect to AI service", "Failed to reach AI service: refused", "AI_CONNECTION_ERROR"),
        (
            "Cannot connect to geocoding service",
            "Failed to reach OpenCage API: refused",
            "GEOCODE_CONNECTION_ERROR",
        ),
        (
            "Cannot connect to Gemini service",
            "Failed to reach Gemini API: refused",
            "GEMINI_CONNECTION_ERROR",
        ),
    ];
    for (provider, (error, message, code)) in PROVIDERS.iter().zip(expected) {
        assert_eq!(
            transport_fault(*provider, TransportKind::ConnectionRefused, "refused"),
            GatewayError {
                http_status: 503,
                error: error.to_string(),
                message: message.to_string(),
                code: code.to_string(),
                upstream_status: None,
            }
        );
    }
}

#[test]
fn other_transport_failure_is_503_for_every_provider() {
    let expected = [
        ("AI service unavailable", "Failed to reach AI service: ", "AI_SERVICE_ERROR"),
        ("Geocoding service unavailable", "Failed to reach OpenCage API: ", "GEOCODE_SERVICE_ERROR"),
        ("Gemini service unavailable", "Failed to reach Gemini API: ", "GEMINI_SERVICE_ERROR"),
    ];
    for (provider, (error, message, code)) in PROVIDERS.iter().zip(expected) {
        assert_eq!(
            transport_fault(*provider, TransportKind::Other, ""),
            GatewayError {
                http_status: 503,
                error: error.to_string(),
                message: message.to_string(),
                code: code.to_string(),
                upstream_status: None,
            }
        );
    }
}

#[test]
fn parsed_body_is_passed_through_whatever_it_parsed_to() {
    let parsed = serde_json::from_slice::<serde_json::Value>(b"{\"a\":1}");
    assert_eq!(
        pass_through(Provider::Geocode, b"[ 1, 2 ]".to_vec(), parsed),
        Ok(PassthroughBody { http_status: 200, body: b"[ 1, 2 ]".to_vec() })
    );
}

#[test]
fn body_that_did_not_parse_is_a_parse_error() {
    for provider in PROVIDERS {
        let parsed = serde_json::from_slice::<serde_json::Value>(b"{");
        assert_eq!(pass_through(provider, b"{}".to_vec(), parsed), Err(parse_error_of(provider)));
    }
}
