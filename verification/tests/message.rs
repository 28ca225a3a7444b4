use tokio_websocket_client::{
    close_error_kind, ChannelFailure, CloseCode, CloseErrorKind, RetryStrategy,
    DEFAULT_CLOSE_STRATEGY, DEFAULT_CONNECT_FAILURE_STRATEGY, DEFAULT_DISCONNECT_STRATEGY,
    DEFAULT_PING_INTERVAL_SECS,
    DEFAULT_REQUEST_QUEUE_SIZE, DEFAULT_RETRY_DELAY_SECS,
};

#[test]
fn named_close_codes() {
    let named = [
        (1000, CloseCode::Normal),
        (1001, CloseCode::Away),
        (1002, CloseCode::Protocol),
        (1003, CloseCode::Unsupported),
        (1005, CloseCode::Status),
        (1006, CloseCode::Abnormal),
        (1007, CloseCode::Invalid),
        (1008, CloseCode::Policy),
        (1009, CloseCode::Size),
        (1010, CloseCode::Extension),
        (1011, CloseCode::Error),
        (1012, CloseCode::Restart),
        (1013, CloseCode::Again),
        (1015, CloseCode::Tls),
    ];
    for (n, code) in named {
        assert_eq!(CloseCode::from(n), code);
        assert_eq!(u16::from(code), n);
    }
}

#[test]
fn ranges_of_close_codes() {
    assert_eq!(CloseCode::from(0), CloseCode::Bad(0));
    assert_eq!(CloseCode::from(999), CloseCode::Bad(999));
    assert_eq!(CloseCode::from(1004), CloseCode::Bad(1004));
    assert_eq!(CloseCode::from(1014), CloseCode::Bad(1014));
    assert_eq!(CloseCode::from(1016), CloseCode::Reserved(1016));
    assert_eq!(CloseCode::from(2999), CloseCode::Reserved(2999));
    assert_eq!(CloseCode::from(3000), CloseCode::Iana(3000));
    assert_eq!(CloseCode::from(3999), CloseCode::Iana(3999));
    assert_eq!(CloseCode::from(4000), CloseCode::Library(4000));
    assert_eq!(CloseCode::from(4999), CloseCode::Library(4999));
    assert_eq!(CloseCode::from(5000), CloseCode::Bad(5000));
    assert_eq!(CloseCode::from(u16::MAX), CloseCode::Bad(u16::MAX));
}

#[test]
fn close_code_roundtrip_for_every_status() {
    for n in 0..=u16::MAX {
        let code = CloseCode::from(n);
        assert_eq!(u16::from(code), n);
        assert_eq!(code.to_u16(), n);
        assert_eq!(CloseCode::from(u16::from(code)), code);
        assert_eq!(CloseCode::from_u16(n), code);
    }
}

#[test]
fn close_failures_map_to_error_kinds() {
    assert_eq!(close_error_kind(ChannelFailure::Disconnected), CloseErrorKind::BrokenPipe);
    assert_eq!(close_error_kind(ChannelFailure::Timeout), CloseErrorKind::TimedOut);
}

#[test]
fn connector_defaults() {
    assert_eq!(DEFAULT_RETRY_DELAY_SECS, 5);
    assert_eq!(DEFAULT_PING_INTERVAL_SECS, 5);
    assert_eq!(DEFAULT_REQUEST_QUEUE_SIZE, 500);
}

#[test]
fn handler_defaults_retry() {
    assert_eq!(DEFAULT_CLOSE_STRATEGY, RetryStrategy::Retry);
    assert_eq!(DEFAULT_CONNECT_FAILURE_STRATEGY, RetryStrategy::Retry);
    assert_eq!(DEFAULT_DISCONNECT_STRATEGY, RetryStrategy::Retry);
}
