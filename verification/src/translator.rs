//! The response translator: a successful outcome passes the provider's body
//! through unchanged, every other outcome becomes one [`GatewayError`].

use vstd::prelude::*;
use crate::error::{
    GatewayError, GatewayErrorView, STATUS_BAD_GATEWAY, STATUS_INTERNAL_ERROR, STATUS_UNAVAILABLE,
};
use crate::invoker::{TransportKind, UpstreamOutcome, UpstreamOutcomeView};
use crate::provider::Provider;
use crate::text::concat2;

verus! {

/// The status of every successful reply.
pub const STATUS_OK: u16 = 200;

/// One row of a status table: what a fault is called and its machine code.
#[derive(Clone, Copy, Debug, PartialEq, Eq)]
pub struct StatusEntry {
    pub summary: &'static str,
    pub code: &'static str,
}

/// The mathematical content of a [`StatusEntry`].
pub struct StatusEntryView {
    pub summary: Seq<char>,
    pub code: Seq<char>,
}

impl View for StatusEntry {
    type V = StatusEntryView;

    open spec fn view(&self) -> StatusEntryView {
        StatusEntryView { summary: self.summary@, code: self.code@ }
    }
}

/// The chat provider's status table.
pub open spec fn chat_status_table(status: u16) -> StatusEntryView {
    if status == 400 {
        StatusEntryView { summary: "Invalid AI service request"@, code: "AI_BAD_REQUEST"@ }
    } else if status == 401 {
        StatusEntryView {
            summary: "Invalid or expired AI service API key"@,
            code: "AI_UNAUTHORIZED"@,
        }
    } else if status == 403 {
        StatusEntryView { summary: "AI service access forbidden"@, code: "AI_FORBIDDEN"@ }
    } else if status == 429 {
        StatusEntryView {
            summary: "Too many AI requests. Please try again later"@,
            code: "AI_RATE_LIMIT"@,
        }
    } else if status == 500 {
        StatusEntryView { summary: "AI service internal error"@, code: "AI_SERVER_ERROR"@ }
    } else if status == 503 {
        StatusEntryView { summary: "AI service temporarily unavailable"@, code: "AI_UNAVAILABLE"@ }
    } else {
        StatusEntryView { summary: "AI service error"@, code: "AI_ERROR"@ }
    }
}

/// The geocoding provider's status table.  It alone knows an exceeded quota,
/// and it has no rows of its own for 400, 500 and 503.
pub open spec fn geocode_status_table(status: u16) -> StatusEntryView {
    if status == 401 {
        StatusEntryView {
            summary: "Invalid or expired OpenCage API key"@,
            code: "GEOCODE_UNAUTHORIZED"@,
        }
    } else if status == 402 {
        StatusEntryView { summary: "OpenCage API quota exceeded"@, code: "GEOCODE_QUOTA_EXCEEDED"@ }
    } else if status == 403 {
        StatusEntryView { summary: "OpenCage API access forbidden"@, code: "GEOCODE_FORBIDDEN"@ }
    } else if status == 429 {
        StatusEntryView {
            summary: "Too many geocoding requests. Please try again later"@,
            code: "GEOCODE_RATE_LIMIT"@,
        }
    } else {
        StatusEntryView { summary: "Geocoding service error"@, code: "GEOCODE_ERROR"@ }
    }
}

/// The generative provider's status table.
pub open spec fn generate_status_table(status: u16) -> StatusEntryView {
    if status == 400 {
        StatusEntryView { summary: "Invalid Gemini API request"@, code: "GEMINI_BAD_REQUEST"@ }
    } else if status == 401 {
        StatusEntryView {
            summary: "Invalid or expired Gemini API key"@,
            code: "GEMINI_UNAUTHORIZED"@,
        }
    } else if status == 403 {
        StatusEntryView { summary: "Gemini API access forbidden"@, code: "GEMINI_FORBIDDEN"@ }
    } else if status == 429 {
        StatusEntryView {
            summary: "Too many AI requests. Please try again later"@,
            code: "GEMINI_RATE_LIMIT"@,
        }
    } else if status == 500 {
        StatusEntryView { summary: "Gemini service internal error"@, code: "GEMINI_SERVER_ERROR"@ }
    } else if status == 503 {
        StatusEntryView {
            summary: "Gemini service temporarily unavailable"@,
            code: "GEMINI_UNAVAILABLE"@,
        }
    } else {
        StatusEntryView { summary: "Gemini AI service error"@, code: "GEMINI_ERROR"@ }
    }
}

/// The row for a status that a provider answered with.
pub open spec fn status_entry(provider: Provider, status: u16) -> StatusEntryView {
    match provider {
        Provider::ChatCompletion => chat_status_table(status),
        Provider::Geocode => geocode_status_table(status),
        Provider::GenerativeAi => generate_status_table(status),
    }
}

fn chat_status_row(status: u16) -> (row: StatusEntry)
    ensures
        row@ == chat_status_table(status),
{
    match status {
        400 => StatusEntry { summary: "Invalid AI service request", code: "AI_BAD_REQUEST" },
        401 => StatusEntry {
            summary: "Invalid or expired AI service API key",
            code: "AI_UNAUTHORIZED",
        },
        403 => StatusEntry { summary: "AI service access forbidden", code: "AI_FORBIDDEN" },
        429 => StatusEntry {
            summary: "Too many AI requests. Please try again later",
            code: "AI_RATE_LIMIT",
        },
        500 => StatusEntry { summary: "AI service internal error", code: "AI_SERVER_ERROR" },
        503 => StatusEntry { summary: "AI service temporarily unavailable", code: "AI_UNAVAILABLE" },
        _ => StatusEntry { summary: "AI service error", code: "AI_ERROR" },
    }
}

fn geocode_status_row(status: u16) -> (row: StatusEntry)
    ensures
        row@ == geocode_status_table(status),
{
    match status {
        401 => StatusEntry {
            summary: "Invalid or expired OpenCage API key",
            code: "GEOCODE_UNAUTHORIZED",
        },
        402 => StatusEntry { summary: "OpenCage API quota exceeded", code: "GEOCODE_QUOTA_EXCEEDED" },
        403 => StatusEntry { summary: "OpenCage API access forbidden", code: "GEOCODE_FORBIDDEN" },
        429 => StatusEntry {
            summary: "Too many geocoding requests. Please try again later",
            code: "GEOCODE_RATE_LIMIT",
        },
        _ => StatusEntry { summary: "Geocoding service error", code: "GEOCODE_ERROR" },
    }
}

fn generate_status_row(status: u16) -> (row: StatusEntry)
    ensures
        row@ == generate_status_table(status),
{
    match status {
        400 => StatusEntry { summary: "Invalid Gemini API request", code: "GEMINI_BAD_REQUEST" },
        401 => StatusEntry {
            summary: "Invalid or expired Gemini API key",
            code: "GEMINI_UNAUTHORIZED",
        },
        403 => StatusEntry { summary: "Gemini API access forbidden", code: "GEMINI_FORBIDDEN" },
        429 => StatusEntry {
            summary: "Too many AI requests. Please try again later",
            code: "GEMINI_RATE_LIMIT",
        },
        500 => StatusEntry { summary: "Gemini service internal error", code: "GEMINI_SERVER_ERROR" },
        503 => StatusEntry {
            summary: "Gemini service temporarily unavailable",
            code: "GEMINI_UNAVAILABLE",
        },
        _ => StatusEntry { summary: "Gemini AI service error", code: "GEMINI_ERROR" },
    }
}

/// Looks a status up in the provider's own table.
pub fn lookup_status(provider: Provider, status: u16) -> (row: StatusEntry)
    ensures
        row@ == status_entry(provider, status),
{
    match provider {
        Provider::ChatCompletion => chat_status_row(status),
        Provider::Geocode => geocode_status_row(status),
        Provider::GenerativeAi => generate_status_row(status),
    }
}

/// A number is a legal HTTP status when it has three digits.
pub open spec fn is_legal_status(status: u16) -> bool {
    100 <= status <= 999
}

/// The status of the reply for an upstream status: the upstream status itself
/// where it is legal, 500 in its place where it is not.
pub open spec fn reply_status(status: u16) -> u16 {
    if is_legal_status(status) {
        status
    } else {
        STATUS_INTERNAL_ERROR
    }
}

/// Calls `StatusCode::from_u16` of the `http` crate, as `axum` hands it on,
/// and `StatusCode::as_u16` on the status it made.  Trusted: exactly the
/// numbers from 100 to 999 are accepted, and an accepted number comes back
/// as it went in.
#[verifier::external_body]
fn legal_status(status: u16) -> (legal: Option<u16>)
    ensures
        legal == (if is_legal_status(status) {
            Some(status)
        } else {
            None::<u16>
        }),
{
    match axum::http::StatusCode::from_u16(status) {
        Ok(code) => Some(code.as_u16()),
        Err(_) => None,
    }
}

/// Computes the status of the reply for an upstream status.
pub fn passed_status(status: u16) -> (reply: u16)
    ensures
        reply == reply_status(status),
{
    match legal_status(status) {
        Some(code) => code,
        None => STATUS_INTERNAL_ERROR,
    }
}

/// The error for a fault that the provider reported: its status passed
/// through, the row of the provider's table, and the provider's text as the
/// message, verbatim.
pub open spec fn upstream_error(provider: Provider, status: u16, body: Seq<char>) -> GatewayErrorView {
    GatewayErrorView {
        http_status: reply_status(status),
        error: status_entry(provider, status).summary,
        message: body,
        code: status_entry(provider, status).code,
        upstream_status: Some(status),
    }
}

/// What a transport failure is called.
pub open spec fn transport_summary(provider: Provider, kind: TransportKind) -> Seq<char> {
    match (provider, kind) {
        (Provider::ChatCompletion, TransportKind::Timeout) => "AI request timed out"@,
        (Provider::ChatCompletion, TransportKind::ConnectionRefused) => "Cannot connect to AI service"@,
        (Provider::ChatCompletion, TransportKind::Other) => "AI service unavailable"@,
        (Provider::Geocode, TransportKind::Timeout) => "Geocoding request timed out"@,
        (Provider::Geocode, TransportKind::ConnectionRefused) => "Cannot connect to geocoding service"@,
        (Provider::Geocode, TransportKind::Other) => "Geocoding service unavailable"@,
        (Provider::GenerativeAi, TransportKind::Timeout) => "Gemini request timed out"@,
        (Provider::GenerativeAi, TransportKind::ConnectionRefused) => "Cannot connect to Gemini service"@,
        (Provider::GenerativeAi, TransportKind::Other) => "Gemini service unavailable"@,
    }
}

/// The machine code of a transport failure.
pub open spec fn transport_code(provider: Provider, kind: TransportKind) -> Seq<char> {
    match (provider, kind) {
        (Provider::ChatCompletion, TransportKind::Timeout) => "AI_TIMEOUT"@,
        (Provider::ChatCompletion, TransportKind::ConnectionRefused) => "AI_CONNECTION_ERROR"@,
        (Provider::ChatCompletion, TransportKind::Other) => "AI_SERVICE_ERROR"@,
        (Provider::Geocode, TransportKind::Timeout) => "GEOCODE_TIMEOUT"@,
        (Provider::Geocode, TransportKind::ConnectionRefused) => "GEOCODE_CONNECTION_ERROR"@,
        (Provider::Geocode, TransportKind::Other) => "GEOCODE_SERVICE_ERROR"@,
        (Provider::GenerativeAi, TransportKind::Timeout) => "GEMINI_TIMEOUT"@,
        (Provider::GenerativeAi, TransportKind::ConnectionRefused) => "GEMINI_CONNECTION_ERROR"@,
        (Provider::GenerativeAi, TransportKind::Other) => "GEMINI_SERVICE_ERROR"@,
    }
}

/// What stands before the failure's own description in the message.
pub open spec fn transport_prefix(provider: Provider) -> Seq<char> {
    match provider {
        Provider::ChatCompletion => "Failed to reach AI service: "@,
        Provider::Geocode => "Failed to reach OpenCage API: "@,
        Provider::GenerativeAi => "Failed to reach Gemini API: "@,
    }
}

/// The error for a transport failure: always status 503; the failure's own
/// description is detail in the message, never the summary.
pub open spec fn transport_error(
    provider: Provider,
    kind: TransportKind,
    detail: Seq<char>,
) -> GatewayErrorView {
    GatewayErrorView {
        http_status: STATUS_UNAVAILABLE,
        error: transport_summary(provider, kind),
        message: transport_prefix(provider) + detail,
        code: transport_code(provider, kind),
        upstream_status: None,
    }
}

/// The error for a successful answer whose body is not JSON.
pub open spec fn parse_error(provider: Provider) -> GatewayErrorView {
    match provider {
        Provider::ChatCompletion => GatewayErrorView {
            http_status: STATUS_BAD_GATEWAY,
            error: "Failed to parse AI response"@,
            message: "The AI service returned an invalid response format"@,
            code: "AI_PARSE_ERROR"@,
            upstream_status: None,
        },
        Provider::Geocode => GatewayErrorView {
            http_status: STATUS_BAD_GATEWAY,
            error: "Failed to parse geocoding response"@,
            message: "The geocoding service returned an invalid response format"@,
            code: "GEOCODE_PARSE_ERROR"@,
            upstream_status: None,
        },
        Provider::GenerativeAi => GatewayErrorView {
            http_status: STATUS_BAD_GATEWAY,
            error: "Failed to parse Gemini response"@,
            message: "The Gemini API returned an invalid response format"@,
            code: "GEMINI_PARSE_ERROR"@,
            upstream_status: None,
        },
    }
}

/// Whether `bytes` are one JSON document, as `serde_json::from_slice` decides
/// it when asked for a `serde_json::Value`.
pub uninterp spec fn is_json_document(bytes: Seq<u8>) -> bool;

/// Declares `serde_json::Value`, which is only carried, never looked into.
#[verifier::external_type_specification]
#[verifier::external_body]
pub struct ExJsonValue(serde_json::Value);

/// Declares `serde_json::Error`, which is only carried, never looked into.
#[verifier::external_type_specification]
#[verifier::external_body]
pub struct ExJsonError(serde_json::Error);

/// Calls `serde_json::from_slice` for a `serde_json::Value`.  Trusted:
/// whether it succeeds depends on the bytes alone.
#[verifier::external_body]
fn parse_json(bytes: &[u8]) -> (parsed: Result<serde_json::Value, serde_json::Error>)
    ensures
        parsed is Ok == is_json_document(bytes@),
{
    serde_json::from_slice::<serde_json::Value>(bytes)
}

/// A successful reply: status 200 and the provider's body, byte for byte.
#[derive(Clone, Debug, PartialEq, Eq)]
pub struct PassthroughBody {
    pub http_status: u16,
    pub body: Vec<u8>,
}

/// The mathematical content of a [`PassthroughBody`].
pub struct PassthroughBodyView {
    pub http_status: u16,
    pub body: Seq<u8>,
}

impl View for PassthroughBody {
    type V = PassthroughBodyView;

    open spec fn view(&self) -> PassthroughBodyView {
        PassthroughBodyView { http_status: self.http_status, body: self.body@ }
    }
}

/// What a successful answer comes to, given whether its body parses as one
/// JSON document: the body itself with status 200, or the parse error.
pub open spec fn passed(provider: Provider, bytes: Seq<u8>, parses: bool) -> Result<
    PassthroughBodyView,
    GatewayErrorView,
> {
    if parses {
        Ok(PassthroughBodyView { http_status: STATUS_OK, body: bytes })
    } else {
        Err(parse_error(provider))
    }
}

/// What an outcome translates to.
pub open spec fn translation(provider: Provider, outcome: UpstreamOutcomeView) -> Result<
    PassthroughBodyView,
    GatewayErrorView,
> {
    match outcome {
        UpstreamOutcomeView::Success { status, body } => match body {
            Some(bytes) => passed(provider, bytes, is_json_document(bytes)),
            None => Err(parse_error(provider)),
        },
        UpstreamOutcomeView::UpstreamError { status, body } => Err(
            upstream_error(provider, status, body),
        ),
        UpstreamOutcomeView::TransportFailure { kind, detail } => Err(
            transport_error(provider, kind, detail),
        ),
    }
}

/// The content of a translation's result.
pub open spec fn translated_view(translated: Result<PassthroughBody, GatewayError>) -> Result<
    PassthroughBodyView,
    GatewayErrorView,
> {
    match translated {
        Ok(body) => Ok(body@),
        Err(e) => Err(e@),
    }
}

/// Builds the error for a fault that the provider reported.
pub fn upstream_fault(provider: Provider, status: u16, body: String) -> (e: GatewayError)
    ensures
        e@ == upstream_error(provider, status, body@),
{
    let row = lookup_status(provider, status);
    GatewayError {
        http_status: passed_status(status),
        error: String::from_str(row.summary),
        message: body,
        code: String::from_str(row.code),
        upstream_status: Some(status),
    }
}

/// Builds the error for a transport failure.
pub fn transport_fault(provider: Provider, kind: TransportKind, detail: &str) -> (e: GatewayError)
    ensures
        e@ == transport_error(provider, kind, detail@),
{
    let summary = match (provider, kind) {
        (Provider::ChatCompletion, TransportKind::Timeout) => "AI request timed out",
        (Provider::ChatCompletion, TransportKind::ConnectionRefused) => "Cannot connect to AI service",
        (Provider::ChatCompletion, TransportKind::Other) => "AI service unavailable",
        (Provider::Geocode, TransportKind::Timeout) => "Geocoding request timed out",
        (Provider::Geocode, TransportKind::ConnectionRefused) => "Cannot connect to geocoding service",
        (Provider::Geocode, TransportKind::Other) => "Geocoding service unavailable",
        (Provider::GenerativeAi, TransportKind::Timeout) => "Gemini request timed out",
        (Provider::GenerativeAi, TransportKind::ConnectionRefused) => "Cannot connect to Gemini service",
        (Provider::GenerativeAi, TransportKind::Other) => "Gemini service unavailable",
    };
    let code = match (provider, kind) {
        (Provider::ChatCompletion, TransportKind::Timeout) => "AI_TIMEOUT",
        (Provider::ChatCompletion, TransportKind::ConnectionRefused) => "AI_CONNECTION_ERROR",
        (Provider::ChatCompletion, TransportKind::Other) => "AI_SERVICE_ERROR",
        (Provider::Geocode, TransportKind::Timeout) => "GEOCODE_TIMEOUT",
        (Provider::Geocode, TransportKind::ConnectionRefused) => "GEOCODE_CONNECTION_ERROR",
        (Provider::Geocode, TransportKind::Other) => "GEOCODE_SERVICE_ERROR",
        (Provider::GenerativeAi, TransportKind::Timeout) => "GEMINI_TIMEOUT",
        (Provider::GenerativeAi, TransportKind::ConnectionRefused) => "GEMINI_CONNECTION_ERROR",
        (Provider::GenerativeAi, TransportKind::Other) => "GEMINI_SERVICE_ERROR",
    };
    let prefix = match provider {
        Provider::ChatCompletion => "Failed to reach AI service: ",
        Provider::Geocode => "Failed to reach OpenCage API: ",
        Provider::GenerativeAi => "Failed to reach Gemini API: ",
    };
    GatewayError::local(STATUS_UNAVAILABLE, summary, concat2(prefix, detail), code)
}

/// Builds the error for a successful answer whose body is not JSON.
pub fn parse_fault(provider: Provider) -> (e: GatewayError)
    ensures
        e@ == parse_error(provider),
{
    match provider {
        Provider::ChatCompletion => GatewayError::local(
            STATUS_BAD_GATEWAY,
            "Failed to parse AI response",
            String::from_str("The AI service returned an invalid response format"),
            "AI_PARSE_ERROR",
        ),
        Provider::Geocode => GatewayError::local(
            STATUS_BAD_GATEWAY,
            "Failed to parse geocoding response",
            String::from_str("The geocoding service returned an invalid response format"),
            "GEOCODE_PARSE_ERROR",
        ),
        Provider::GenerativeAi => GatewayError::local(
            STATUS_BAD_GATEWAY,
            "Failed to parse Gemini response",
            String::from_str("The Gemini API returned an invalid response format"),
            "GEMINI_PARSE_ERROR",
        ),
    }
}

/// Decides the reply to a successful answer from how its body parsed: a
/// body that parsed is passed through byte for byte, whatever it parsed to.
pub fn pass_through(
    provider: Provider,
    body: Vec<u8>,
    parsed: Result<serde_json::Value, serde_json::Error>,
) -> (reply: Result<PassthroughBody, GatewayError>)
    ensures
        translated_view(reply) == passed(provider, body@, parsed is Ok),
{
    match parsed {
        Ok(_) => Ok(PassthroughBody { http_status: STATUS_OK, body }),
        Err(_) => Err(parse_fault(provider)),
    }
}

/// Translates the outcome of an upstream call.  A success whose body is one
/// JSON document is passed through byte for byte; everything else becomes the
/// provider's error for it.
pub fn translate(provider: Provider, outcome: UpstreamOutcome) -> (translated: Result<
    PassthroughBody,
    GatewayError,
>)
    ensures
        translated_view(translated) == translation(provider, outcome@),
{
    match outcome {
        UpstreamOutcome::Success { status, body } => match body {
            Some(bytes) => {
                let parsed = parse_json(bytes.as_slice());
                pass_through(provider, bytes, parsed)
            },
            None => Err(parse_fault(provider)),
        },
        UpstreamOutcome::UpstreamError { status, body } => Err(
            upstream_fault(provider, status, body),
        ),
        UpstreamOutcome::TransportFailure { kind, detail } => Err(
            transport_fault(provider, kind, detail.as_str()),
        ),
    }
}

} // verus!
