//! The one error that a gateway operation reports to its client.

use vstd::prelude::*;

verus! {

/// What a client is told when an operation fails.  Serialised, it is the
/// object `{"error", "message", "code", "status"?}`, sent with `http_status`.
#[derive(Clone, Debug, PartialEq, Eq)]
pub struct GatewayError {
    /// The HTTP status of the reply.
    pub http_status: u16,
    /// A short description of the fault.
    pub error: String,
    /// Detail for diagnosis; for a fault that the provider reported, the
    /// provider's own text.
    pub message: String,
    /// The stable machine code of the fault.
    pub code: String,
    /// The status the provider answered with, where it answered.
    pub upstream_status: Option<u16>,
}

/// The mathematical content of a [`GatewayError`].
pub struct GatewayErrorView {
    pub http_status: u16,
    pub error: Seq<char>,
    pub message: Seq<char>,
    pub code: Seq<char>,
    pub upstream_status: Option<u16>,
}

impl View for GatewayError {
    type V = GatewayErrorView;

    open spec fn view(&self) -> GatewayErrorView {
        GatewayErrorView {
            http_status: self.http_status,
            error: self.error@,
            message: self.message@,
            code: self.code@,
            upstream_status: self.upstream_status,
        }
    }
}

/// The status sent for a rejected request.
pub const STATUS_BAD_REQUEST: u16 = 400;

/// The status sent when a credential is absent, and in place of an upstream
/// status that is not a legal HTTP status.
pub const STATUS_INTERNAL_ERROR: u16 = 500;

/// The status sent when the provider's body cannot be parsed.
pub const STATUS_BAD_GATEWAY: u16 = 502;

/// The status sent when the provider cannot be reached.
pub const STATUS_UNAVAILABLE: u16 = 503;

impl GatewayError {
    /// An error of a fault that is not the provider's answer.
    pub fn local(http_status: u16, error: &str, message: String, code: &str) -> (e: GatewayError)
        ensures
            e@ == (GatewayErrorView {
                http_status,
                error: error@,
                message: message@,
                code: code@,
                upstream_status: None,
            }),
    {
        GatewayError {
            http_status,
            error: String::from_str(error),
            message,
            code: String::from_str(code),
            upstream_status: None,
        }
    }
}

} // verus!
