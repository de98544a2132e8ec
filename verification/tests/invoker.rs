use backend::invoker::{classify, InvokerReport, TransportKind, UpstreamOutcome};

fn responded(status: u16, body: &[u8]) -> InvokerReport {
    InvokerReport::Responded { status, body: Some(body.to_vec()) }
}

fn failed(timed_out: bool, connect_failed: bool) -> InvokerReport {
    InvokerReport::Failed { timed_out, connect_failed, detail: "boom".to_string() }
}

fn kind_of(outcome: UpstreamOutcome) -> TransportKind {
    match outcome {
        UpstreamOutcome::TransportFailure { kind, detail } => {
            assert_eq!(detail, "boom");
            kind
        }
        other => panic!("not a transport failure: {:?}", other),
    }
}

#[test]
fn status_200_is_a_success_with_the_raw_body() {
    assert_eq!(
        classify(responded(200, b"{\"a\":1}")),
        UpstreamOutcome::Success { status: 200, body: Some(b"{\"a\":1}".to_vec()) }
    );
}

#[test]
fn success_range_is_200_to_299() {
    for status in [200u16, 201, 204, 250, 299] {
        assert_eq!(
            classify(responded(status, b"x")),
            UpstreamOutcome::Success { status, body: Some(b"x".to_vec()) }
        );
    }
    for status in [0u16, 100, 199, 300, 301, 400, 404, 429, 500, 503, 999, 1000, u16::MAX] {
        assert_eq!(
            classify(responded(status, b"x")),
            UpstreamOutcome::UpstreamError { status, body: "x".to_string() }
        );
    }
}

#[test]
fn success_with_unreadable_body_stays_a_success() {
    assert_eq!(
        classify(InvokerReport::Responded { status: 200, body: None }),
        UpstreamOutcome::Success { status: 200, body: None }
    );
}

#[test]
fn error_body_is_read_as_text() {
    assert_eq!(
        classify(responded(429, "slow down, señor".as_bytes())),
        UpstreamOutcome::UpstreamError { status: 429, body: "slow down, señor".to_string() }
    );
}

#[test]
fn invalid_utf8_in_an_error_body_is_replaced() {
    assert_eq!(
        classify(responded(500, b"bad \xff byte")),
        UpstreamOutcome::UpstreamError { status: 500, body: "bad \u{fffd} byte".to_string() }
    );
}

#[test]
fn empty_error_body_is_empty_text() {
    assert_eq!(
        classify(responded(404, b"")),
        UpstreamOutcome::UpstreamError { status: 404, body: String::new() }
    );
}

#[test]
fn unreadable_error_body_becomes_unknown_error() {
    assert_eq!(
        classify(InvokerReport::Responded { status: 502, body: None }),
        UpstreamOutcome::UpstreamError { status: 502, body: "Unknown error".to_string() }
    );
}

#[test]
fn timeout_comes_before_connection_failure() {
    assert_eq!(kind_of(classify(failed(true, false))), TransportKind::Timeout);
    assert_eq!(kind_of(classify(failed(true, true))), TransportKind::Timeout);
}

#[test]
fn connection_failure_without_timeout_is_connection_refused() {
    assert_eq!(kind_of(classify(failed(false, true))), TransportKind::ConnectionRefused);
}

#[test]
fn any_other_failure_is_other() {
    assert_eq!(kind_of(classify(failed(false, false))), TransportKind::Other);
}
