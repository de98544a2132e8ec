//! The upstream invoker's side of the contract: how what the HTTP client
//! observed of one call is classified.  The call itself is the caller's.

use vstd::prelude::*;
use crate::text::{bytes_text, decode_lossy};

verus! {

/// Why no response was received.
#[derive(Clone, Copy, Debug, PartialEq, Eq, Structural)]
pub enum TransportKind {
    /// The deadline passed.
    Timeout,
    /// No connection could be made: refused, or failed in DNS or TLS.
    ConnectionRefused,
    /// Any other cause.
    Other,
}

/// What the HTTP client observed of one call, as plain values.
#[derive(Clone, Debug, PartialEq, Eq)]
pub enum InvokerReport {
    /// A response was received.  `body` is `None` where the body could not be
    /// read in full.
    Responded { status: u16, body: Option<Vec<u8>> },
    /// No response was received.  The two flags say what the client knows of
    /// the cause; `detail` is its description of the failure.
    Failed { timed_out: bool, connect_failed: bool, detail: String },
}

/// The mathematical content of a [`InvokerReport`].
pub enum InvokerReportView {
    Responded { status: u16, body: Option<Seq<u8>> },
    Failed { timed_out: bool, connect_failed: bool, detail: Seq<char> },
}

/// The content of an optional byte string.
pub open spec fn optional_bytes(bytes: Option<Vec<u8>>) -> Option<Seq<u8>> {
    match bytes {
        Some(b) => Some(b@),
        None => None,
    }
}

impl View for InvokerReport {
    type V = InvokerReportView;

    open spec fn view(&self) -> InvokerReportView {
        match self {
            InvokerReport::Responded { status, body } => InvokerReportView::Responded {
                status: *status,
                body: optional_bytes(*body),
            },
            InvokerReport::Failed { timed_out, connect_failed, detail } => InvokerReportView::Failed {
                timed_out: *timed_out,
                connect_failed: *connect_failed,
                detail: detail@,
            },
        }
    }
}

/// The outcome of one upstream call.
#[derive(Clone, Debug, PartialEq, Eq)]
pub enum UpstreamOutcome {
    /// The provider answered with a status in 200..300.  `body` is what it
    /// sent, not yet parsed; `None` where it could not be read in full.
    Success { status: u16, body: Option<Vec<u8>> },
    /// The provider answered with any other status; `body` is the text of
    /// its answer.
    UpstreamError { status: u16, body: String },
    /// The provider did not answer.
    TransportFailure { kind: TransportKind, detail: String },
}

/// The mathematical content of a [`UpstreamOutcome`].
pub enum UpstreamOutcomeView {
    Success { status: u16, body: Option<Seq<u8>> },
    UpstreamError { status: u16, body: Seq<char> },
    TransportFailure { kind: TransportKind, detail: Seq<char> },
}

impl View for UpstreamOutcome {
    type V = UpstreamOutcomeView;

    open spec fn view(&self) -> UpstreamOutcomeView {
        match self {
            UpstreamOutcome::Success { status, body } => UpstreamOutcomeView::Success {
                status: *status,
                body: optional_bytes(*body),
            },
            UpstreamOutcome::UpstreamError { status, body } => UpstreamOutcomeView::UpstreamError {
                status: *status,
                body: body@,
            },
            UpstreamOutcome::TransportFailure { kind, detail } => UpstreamOutcomeView::TransportFailure {
                kind: *kind,
                detail: detail@,
            },
        }
    }
}

/// A status in 200..300 is a success.
pub open spec fn is_success_status(status: u16) -> bool {
    200 <= status < 300
}

/// The kind of a transport failure: a timeout first, then a failure to
/// connect, then anything else.
pub open spec fn transport_kind(timed_out: bool, connect_failed: bool) -> TransportKind {
    if timed_out {
        TransportKind::Timeout
    } else if connect_failed {
        TransportKind::ConnectionRefused
    } else {
        TransportKind::Other
    }
}

/// The text of an error body: its bytes read as UTF-8, invalid sequences
/// replaced; where the body could not be read, a fixed text.
pub open spec fn error_body_text(body: Option<Seq<u8>>) -> Seq<char> {
    match body {
        Some(bytes) => bytes_text(bytes),
        None => "Unknown error"@,
    }
}

/// The outcome that a report stands for.
pub open spec fn outcome_of(report: InvokerReportView) -> UpstreamOutcomeView {
    match report {
        InvokerReportView::Responded { status, body } => if is_success_status(status) {
            UpstreamOutcomeView::Success { status, body }
        } else {
            UpstreamOutcomeView::UpstreamError { status, body: error_body_text(body) }
        },
        InvokerReportView::Failed { timed_out, connect_failed, detail } => {
            UpstreamOutcomeView::TransportFailure {
                kind: transport_kind(timed_out, connect_failed),
                detail,
            }
        },
    }
}

/// Classifies what the HTTP client observed.
pub fn classify(report: InvokerReport) -> (outcome: UpstreamOutcome)
    ensures
        outcome@ == outcome_of(report@),
{
    match report {
        InvokerReport::Responded { status, body } => {
            if 200 <= status && status < 300 {
                UpstreamOutcome::Success { status, body }
            } else {
                let text = match body {
                    Some(bytes) => decode_lossy(bytes.as_slice()),
                    None => String::from_str("Unknown error"),
                };
                UpstreamOutcome::UpstreamError { status, body: text }
            }
        },
        InvokerReport::Failed { timed_out, connect_failed, detail } => {
            let kind = if timed_out {
                TransportKind::Timeout
            } else if connect_failed {
                TransportKind::ConnectionRefused
            } else {
                TransportKind::Other
            };
            UpstreamOutcome::TransportFailure { kind, detail }
        },
    }
}

} // verus!
