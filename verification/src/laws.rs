//! What holds of every gateway operation, proved from the definitions that
//! the functions' contracts are stated over.

use vstd::prelude::*;
use vstd::utf8::encode_utf8;
use crate::builder::{invalid_input_code, invalid_input_error, upstream_request};
use crate::credential::{absent_code, absent_error, resolution, AbsentCredential};
use crate::error::GatewayErrorView;
use crate::gateway::{issued_request, operation_reply};
use crate::invoker::{
    is_success_status, outcome_of, InvokerReportView, TransportKind, UpstreamOutcomeView,
};
use crate::provider::{CredentialSlot, Provider};
use crate::request::ClientRequestView;
use crate::text::lemma_bytes_text_of_encoding;
use crate::translator::{
    is_json_document, is_legal_status, parse_error, transport_code, transport_error, translation,
    upstream_error, PassthroughBodyView,
};

verus! {

/// A request with an empty required input is answered with status 400 and
/// the provider's code for it, whatever configuration holds and whatever the
/// HTTP client would have observed; and no upstream request is issued for it.
pub proof fn lemma_empty_input_is_rejected(
    request: ClientRequestView,
    lookup: Option<Seq<char>>,
    report: InvokerReportView,
)
    requires
        !request.is_valid(),
    ensures
        issued_request(request, lookup) is None,
        operation_reply(request, lookup, report) == Err::<PassthroughBodyView, GatewayErrorView>(
            invalid_input_error(request.provider()),
        ),
        invalid_input_error(request.provider()).http_status == 400,
        invalid_input_error(request.provider()).code == (match request.provider() {
            Provider::ChatCompletion => "AI_EMPTY_MESSAGES"@,
            Provider::Geocode => "INVALID_QUERY"@,
            Provider::GenerativeAi => "GEMINI_EMPTY_CONTENTS"@,
        }),
{
}

/// The code for an empty input tells the providers apart.
pub proof fn lemma_empty_input_codes_distinct(p: Provider, q: Provider)
    requires
        p != q,
    ensures
        invalid_input_code(p) != invalid_input_code(q),
{
    reveal_strlit("AI_EMPTY_MESSAGES");
    reveal_strlit("INVALID_QUERY");
    reveal_strlit("GEMINI_EMPTY_CONTENTS");
    assert(invalid_input_code(p).len() != invalid_input_code(q).len());
}

/// A usable request whose credential is not set is answered with status 500
/// and the slot's code for a missing key; one whose credential is set to the
/// empty text, with status 500 and the slot's code for an empty key.  Nothing
/// is sent upstream in either case.
pub proof fn lemma_absent_credential_is_reported(
    request: ClientRequestView,
    report: InvokerReportView,
)
    requires
        request.is_valid(),
    ensures
        issued_request(request, None) is None,
        issued_request(request, Some(Seq::<char>::empty())) is None,
        operation_reply(request, None, report) == Err::<PassthroughBodyView, GatewayErrorView>(
            absent_error(request.provider().spec_slot(), AbsentCredential::Missing),
        ),
        operation_reply(request, Some(Seq::<char>::empty()), report) == Err::<
            PassthroughBodyView,
            GatewayErrorView,
        >(absent_error(request.provider().spec_slot(), AbsentCredential::Empty)),
{
}

/// An absent credential is a fault of the server: its status is 500, and its
/// code is the slot's `_KEY_MISSING` or `_KEY_EMPTY` code.
pub proof fn lemma_absent_credential_codes(slot: CredentialSlot)
    ensures
        absent_error(slot, AbsentCredential::Missing).http_status == 500,
        absent_error(slot, AbsentCredential::Empty).http_status == 500,
        absent_error(slot, AbsentCredential::Missing).code == (match slot {
            CredentialSlot::AiService => "AI_KEY_MISSING"@,
            CredentialSlot::OpenCage => "GEOCODE_KEY_MISSING"@,
            CredentialSlot::Gemini => "GEMINI_KEY_MISSING"@,
            CredentialSlot::GoogleMaps => "MAPS_KEY_MISSING"@,
        }),
        absent_error(slot, AbsentCredential::Empty).code == (match slot {
            CredentialSlot::AiService => "AI_KEY_EMPTY"@,
            CredentialSlot::OpenCage => "GEOCODE_KEY_EMPTY"@,
            CredentialSlot::Gemini => "GEMINI_KEY_EMPTY"@,
            CredentialSlot::GoogleMaps => "MAPS_KEY_EMPTY"@,
        }),
{
}

/// A missing credential and an empty one are never reported under the same
/// code.
pub proof fn lemma_missing_and_empty_codes_differ(slot: CredentialSlot)
    ensures
        absent_code(slot, AbsentCredential::Missing) != absent_code(slot, AbsentCredential::Empty),
{
    reveal_strlit("AI_KEY_MISSING");
    reveal_strlit("AI_KEY_EMPTY");
    reveal_strlit("GEOCODE_KEY_MISSING");
    reveal_strlit("GEOCODE_KEY_EMPTY");
    reveal_strlit("GEMINI_KEY_MISSING");
    reveal_strlit("GEMINI_KEY_EMPTY");
    reveal_strlit("MAPS_KEY_MISSING");
    reveal_strlit("MAPS_KEY_EMPTY");
    assert(absent_code(slot, AbsentCredential::Missing).len() != absent_code(
        slot,
        AbsentCredential::Empty,
    ).len());
}

/// A provider that answers 429 is reported with status 429 and the
/// provider's rate-limit code, and with the provider's own text as the
/// message.
pub proof fn lemma_rate_limit_is_passed_on(provider: Provider, body: Seq<char>)
    ensures
        translation(provider, UpstreamOutcomeView::UpstreamError { status: 429, body }) == Err::<
            PassthroughBodyView,
            GatewayErrorView,
        >(upstream_error(provider, 429, body)),
        upstream_error(provider, 429, body).http_status == 429,
        upstream_error(provider, 429, body).upstream_status == Some(429u16),
        upstream_error(provider, 429, body).message == body,
        upstream_error(provider, 429, body).code == (match provider {
            Provider::ChatCompletion => "AI_RATE_LIMIT"@,
            Provider::Geocode => "GEOCODE_RATE_LIMIT"@,
            Provider::GenerativeAi => "GEMINI_RATE_LIMIT"@,
        }),
{
}

/// The text that a provider sends with a status outside 200..300 reaches the
/// client as the message, unchanged.
pub proof fn lemma_error_text_is_kept(provider: Provider, status: u16, text: Seq<char>)
    requires
        !is_success_status(status),
    ensures
        translation(
            provider,
            outcome_of(InvokerReportView::Responded { status, body: Some(encode_utf8(text)) }),
        ) == Err::<PassthroughBodyView, GatewayErrorView>(upstream_error(provider, status, text)),
        upstream_error(provider, status, text).message == text,
{
    lemma_bytes_text_of_encoding(text);
}

/// The status of a reported upstream fault is the upstream status where that
/// is a legal HTTP status, and 500 where it is not; it is always legal.
pub proof fn lemma_upstream_status_is_passed_through(
    provider: Provider,
    status: u16,
    body: Seq<char>,
)
    ensures
        is_legal_status(status) ==> upstream_error(provider, status, body).http_status == status,
        !is_legal_status(status) ==> upstream_error(provider, status, body).http_status == 500,
        is_legal_status(upstream_error(provider, status, body).http_status),
        upstream_error(provider, status, body).upstream_status == Some(status),
{
}

/// A successful answer whose body is not one JSON document, or could not be
/// read, is reported with status 502 and the provider's parse-error code.
pub proof fn lemma_unparseable_success_is_reported(
    provider: Provider,
    status: u16,
    body: Option<Seq<u8>>,
)
    requires
        body matches Some(bytes) ==> !is_json_document(bytes),
    ensures
        translation(provider, UpstreamOutcomeView::Success { status, body }) == Err::<
            PassthroughBodyView,
            GatewayErrorView,
        >(parse_error(provider)),
        parse_error(provider).http_status == 502,
        parse_error(provider).code == (match provider {
            Provider::ChatCompletion => "AI_PARSE_ERROR"@,
            Provider::Geocode => "GEOCODE_PARSE_ERROR"@,
            Provider::GenerativeAi => "GEMINI_PARSE_ERROR"@,
        }),
{
}

/// A call that timed out is reported with status 503 and the provider's
/// timeout code, whatever else the HTTP client says of the failure.
pub proof fn lemma_timeout_is_unavailable(
    provider: Provider,
    connect_failed: bool,
    detail: Seq<char>,
)
    ensures
        translation(
            provider,
            outcome_of(InvokerReportView::Failed { timed_out: true, connect_failed, detail }),
        ) == Err::<PassthroughBodyView, GatewayErrorView>(
            transport_error(provider, TransportKind::Timeout, detail),
        ),
        transport_error(provider, TransportKind::Timeout, detail).http_status == 503,
        transport_error(provider, TransportKind::Timeout, detail).code == (match provider {
            Provider::ChatCompletion => "AI_TIMEOUT"@,
            Provider::Geocode => "GEOCODE_TIMEOUT"@,
            Provider::GenerativeAi => "GEMINI_TIMEOUT"@,
        }),
{
}

/// Every transport failure is reported with status 503 and without an
/// upstream status, and the three kinds of failure have three different
/// codes.
pub proof fn lemma_transport_failures_are_unavailable(
    provider: Provider,
    kind: TransportKind,
    other: TransportKind,
    detail: Seq<char>,
)
    ensures
        transport_error(provider, kind, detail).http_status == 503,
        transport_error(provider, kind, detail).upstream_status is None,
        kind != other ==> transport_code(provider, kind) != transport_code(provider, other),
{
    reveal_strlit("AI_TIMEOUT");
    reveal_strlit("AI_CONNECTION_ERROR");
    reveal_strlit("AI_SERVICE_ERROR");
    reveal_strlit("GEOCODE_TIMEOUT");
    reveal_strlit("GEOCODE_CONNECTION_ERROR");
    reveal_strlit("GEOCODE_SERVICE_ERROR");
    reveal_strlit("GEMINI_TIMEOUT");
    reveal_strlit("GEMINI_CONNECTION_ERROR");
    reveal_strlit("GEMINI_SERVICE_ERROR");
    if kind != other {
        assert(transport_code(provider, kind).len() != transport_code(provider, other).len());
    }
}

/// A successful answer whose body is one JSON document is passed through: the
/// reply has status 200 and the provider's body, byte for byte.
pub proof fn lemma_success_is_passed_through(provider: Provider, status: u16, bytes: Seq<u8>)
    requires
        is_json_document(bytes),
    ensures
        translation(provider, UpstreamOutcomeView::Success { status, body: Some(bytes) }) == Ok::<
            PassthroughBodyView,
            GatewayErrorView,
        >(PassthroughBodyView { http_status: 200, body: bytes }),
{
}

/// A whole operation is a passthrough: a usable request with a credential,
/// answered by the provider with a success status and one JSON document,
/// yields that document unchanged, and exactly the request that the builder
/// describes was issued for it.
pub proof fn lemma_operation_passes_body_through(
    request: ClientRequestView,
    credential: Seq<char>,
    status: u16,
    bytes: Seq<u8>,
)
    requires
        request.is_valid(),
        credential.len() > 0,
        is_success_status(status),
        is_json_document(bytes),
    ensures
        issued_request(request, Some(credential)) == Some(upstream_request(request, credential)),
        operation_reply(
            request,
            Some(credential),
            InvokerReportView::Responded { status, body: Some(bytes) },
        ) == Ok::<PassthroughBodyView, GatewayErrorView>(
            PassthroughBodyView { http_status: 200, body: bytes },
        ),
{
}

/// The same request, answered twice with the same JSON document by two
/// successful calls, yields the same reply twice: nothing that one operation
/// does reaches the next, and neither the success status nor the value of
/// the credential shows in the reply.
pub proof fn lemma_repeated_request_same_reply(
    request: ClientRequestView,
    first_credential: Seq<char>,
    second_credential: Seq<char>,
    first_status: u16,
    second_status: u16,
    bytes: Seq<u8>,
)
    requires
        request.is_valid(),
        first_credential.len() > 0,
        second_credential.len() > 0,
        is_success_status(first_status),
        is_success_status(second_status),
        is_json_document(bytes),
    ensures
        operation_reply(
            request,
            Some(first_credential),
            InvokerReportView::Responded { status: first_status, body: Some(bytes) },
        ) == operation_reply(
            request,
            Some(second_credential),
            InvokerReportView::Responded { status: second_status, body: Some(bytes) },
        ),
        operation_reply(
            request,
            Some(first_credential),
            InvokerReportView::Responded { status: first_status, body: Some(bytes) },
        ) is Ok,
{
}

/// An operation is a function of what it is given: equal requests, equal
/// configuration and equal observations give equal upstream requests and
/// equal replies.
pub proof fn lemma_operation_is_deterministic(
    first: (ClientRequestView, Option<Seq<char>>, InvokerReportView),
    second: (ClientRequestView, Option<Seq<char>>, InvokerReportView),
)
    requires
        first == second,
    ensures
        issued_request(first.0, first.1) == issued_request(second.0, second.1),
        operation_reply(first.0, first.1, first.2) == operation_reply(
            second.0,
            second.1,
            second.2,
        ),
{
}

/// An upstream request is issued exactly for a usable request whose
/// credential is present, and whether one is issued does not depend on
/// which provider is asked.
pub proof fn lemma_request_issued_iff_ready(request: ClientRequestView, lookup: Option<Seq<char>>)
    ensures
        issued_request(request, lookup) is Some <==> request.is_valid() && resolution(lookup) is Ok,
        issued_request(request, lookup) matches Some(upstream) ==> upstream.timeout_secs == 30,
{
}

/// The status of every failed operation is a legal HTTP status.
pub proof fn lemma_failure_status_is_legal(
    request: ClientRequestView,
    lookup: Option<Seq<char>>,
    report: InvokerReportView,
)
    ensures
        operation_reply(request, lookup, report) matches Err(e) ==> is_legal_status(e.http_status),
        operation_reply(request, lookup, report) matches Ok(body) ==> body.http_status == 200,
{
}

} // verus!
