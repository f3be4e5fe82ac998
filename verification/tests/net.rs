use order_book_stream::net_utils::retry::{RetryBudget, Retryable, DEFAULT_MAX_RETRIES};
use order_book_stream::net_utils::ws::{
    after_poll, connect_target, parse_message, resolve_target, route_message, text_message,
    to_binary_message, AddressError, Config, Incoming, LoopStep, PollError, RecvError, WsMessage,
    CloseFrame,
};
use std::io;
use std::time::Duration;
use tungstenite::error::ProtocolError;

type WsError = tungstenite::Error;

#[test]
fn io_error_kinds() {
    let transient = [
        io::ErrorKind::ConnectionRefused,
        io::ErrorKind::ConnectionReset,
        io::ErrorKind::HostUnreachable,
        io::ErrorKind::NetworkUnreachable,
        io::ErrorKind::ConnectionAborted,
        io::ErrorKind::NotConnected,
        io::ErrorKind::AddrInUse,
        io::ErrorKind::NetworkDown,
        io::ErrorKind::BrokenPipe,
        io::ErrorKind::WouldBlock,
        io::ErrorKind::TimedOut,
        io::ErrorKind::Interrupted,
        io::ErrorKind::UnexpectedEof,
    ];
    for kind in transient {
        assert!(kind.should_retry(), "{kind:?}");
        assert!(io::Error::from(kind).should_retry(), "{kind:?}");
    }
    for kind in [
        io::ErrorKind::NotFound,
        io::ErrorKind::PermissionDenied,
        io::ErrorKind::InvalidData,
        io::ErrorKind::Other,
        io::ErrorKind::AddrNotAvailable,
    ] {
        assert!(!kind.should_retry(), "{kind:?}");
        assert!(!io::Error::new(kind, "x").should_retry(), "{kind:?}");
    }
}

#[test]
fn websocket_errors() {
    assert!(WsError::ConnectionClosed.should_retry());
    assert!(WsError::Protocol(ProtocolError::ResetWithoutClosingHandshake).should_retry());
    assert!(WsError::Protocol(ProtocolError::SendAfterClosing).should_retry());
    assert!(WsError::Protocol(ProtocolError::ReceivedAfterClosing).should_retry());
    assert!(!WsError::Protocol(ProtocolError::WrongHttpMethod).should_retry());
    assert!(WsError::Io(io::ErrorKind::TimedOut.into()).should_retry());
    assert!(!WsError::Io(io::ErrorKind::NotFound.into()).should_retry());
    assert!(!WsError::AlreadyClosed.should_retry());
    assert!(!WsError::Utf8.should_retry());
    assert!(!WsError::AttackAttempt.should_retry());
}

#[test]
fn receive_errors() {
    assert!(RecvError::<WsError>::Close.should_retry());
    assert!(!RecvError::<WsError>::UnexpectedBinary.should_retry());
    assert!(!RecvError::<WsError>::UnexpectedText.should_retry());
    assert!(!RecvError::<WsError>::UnexpectedFrame.should_retry());
    assert!(!RecvError::<WsError>::InvalidTextMsg("x".into()).should_retry());
    assert!(RecvError::Protocol(WsError::ConnectionClosed).should_retry());
    assert!(!RecvError::Protocol(WsError::AlreadyClosed).should_retry());
}

#[test]
fn poll_errors() {
    assert!(PollError::Connect(io::ErrorKind::ConnectionRefused.into()).should_retry());
    assert!(!PollError::Connect(io::ErrorKind::PermissionDenied.into()).should_retry());
    assert!(PollError::WsConnect(WsError::ConnectionClosed).should_retry());
    assert!(!PollError::AddressError(AddressError::InvalidHost).should_retry());
    assert!(!PollError::ClientError(anyhow::Error::msg("boom")).should_retry());
    assert!(PollError::Recv(RecvError::Close).should_retry());
    assert!(!PollError::Recv(RecvError::UnexpectedFrame).should_retry());
}

#[test]
fn connection_loop_decisions() {
    assert!(matches!(after_poll(Ok(())), LoopStep::Finish(Ok(()))));
    assert!(matches!(
        after_poll(Err(PollError::Recv(RecvError::Close))),
        LoopStep::Reconnect(PollError::Recv(RecvError::Close))
    ));
    assert!(matches!(
        after_poll(Err(PollError::AddressError(AddressError::InvalidPort))),
        LoopStep::Finish(Err(PollError::AddressError(AddressError::InvalidPort)))
    ));
}

#[test]
fn retry_budget() {
    let transient = io::ErrorKind::TimedOut;
    let fatal = io::ErrorKind::NotFound;
    let mut budget = RetryBudget::new(2);
    assert!(!budget.on_error(&fatal));
    assert_eq!(budget.retries(), 0);
    assert!(budget.on_error(&transient));
    assert!(budget.on_error(&transient));
    assert!(!budget.on_error(&transient));
    assert_eq!(budget.retries(), 2);
    assert_eq!(DEFAULT_MAX_RETRIES, 5);
    let mut none = RetryBudget::new(0);
    assert!(!none.on_error(&transient));
}

#[test]
fn text_messages() {
    let ok: Result<Option<u32>, RecvError<()>> = parse_message(WsMessage::Text("42".into()));
    assert!(matches!(ok, Ok(Some(42))));
    let bad: Result<Option<u32>, RecvError<()>> = parse_message(WsMessage::Text("x1".into()));
    assert!(matches!(bad, Err(RecvError::InvalidTextMsg(t)) if t == "x1"));
    let ping: Result<Option<u32>, RecvError<()>> = parse_message(WsMessage::Ping(vec![1]));
    assert!(matches!(ping, Ok(None)));
    let pong: Result<Option<u32>, RecvError<()>> = parse_message(WsMessage::Pong(vec![]));
    assert!(matches!(pong, Ok(None)));
    let close: Result<Option<u32>, RecvError<()>> = parse_message(WsMessage::Close(None));
    assert!(matches!(close, Err(RecvError::Close)));
    let bin: Result<Option<u32>, RecvError<()>> = parse_message(WsMessage::Binary(vec![1]));
    assert!(matches!(bin, Err(RecvError::UnexpectedBinary)));
    let frame: Result<Option<u32>, RecvError<()>> = parse_message(WsMessage::Frame(vec![]));
    assert!(matches!(frame, Err(RecvError::UnexpectedFrame)));
}

#[test]
fn binary_messages() {
    let b: Result<Option<Vec<u8>>, RecvError<()>> = to_binary_message(WsMessage::Binary(vec![1, 2]));
    assert!(matches!(b, Ok(Some(v)) if v == vec![1, 2]));
    let t: Result<Option<Vec<u8>>, RecvError<()>> = to_binary_message(text_message("a".into()));
    assert!(matches!(t, Err(RecvError::UnexpectedText)));
    let c: Result<Option<Vec<u8>>, RecvError<()>> = to_binary_message(WsMessage::Close(Some(
        CloseFrame { code: 1000, reason: "bye".into() },
    )));
    assert!(matches!(c, Err(RecvError::Close)));
    let p: Result<Option<Vec<u8>>, RecvError<()>> = to_binary_message(WsMessage::Ping(vec![]));
    assert!(matches!(p, Ok(None)));
}

#[test]
fn routing() {
    assert!(matches!(route_message::<()>(WsMessage::Ping(vec![])), Ok(Incoming::Skip)));
    assert!(matches!(route_message::<()>(WsMessage::Pong(vec![])), Ok(Incoming::Skip)));
    assert!(matches!(route_message::<()>(WsMessage::Text("t".into())), Ok(Incoming::Text(t)) if t == "t"));
    assert!(matches!(route_message::<()>(WsMessage::Binary(vec![9])), Ok(Incoming::Binary(b)) if b == vec![9]));
    assert!(matches!(route_message::<()>(WsMessage::Close(None)), Err(RecvError::Close)));
    assert!(matches!(route_message::<()>(WsMessage::Frame(vec![])), Err(RecvError::UnexpectedFrame)));
    assert!(matches!(text_message("hi".into()), WsMessage::Text(t) if t == "hi"));
}

fn target(uri: &str) -> Result<(String, u16), AddressError> {
    connect_target(&uri.parse::<http::Uri>().unwrap())
}

#[test]
fn targets_of_uris() {
    assert_eq!(target("wss://ws.bitstamp.net").unwrap(), ("ws.bitstamp.net".to_string(), 443));
    assert_eq!(
        target("wss://stream.binance.com:9443/ws/ethbtc@depth20@100ms").unwrap(),
        ("stream.binance.com".to_string(), 9443)
    );
    assert_eq!(target("ws://example.org/x").unwrap(), ("example.org".to_string(), 80));
    assert_eq!(target("http://example.org").unwrap(), ("example.org".to_string(), 80));
    assert_eq!(target("https://example.org").unwrap(), ("example.org".to_string(), 443));
    assert!(matches!(target("ftp://example.org"), Err(AddressError::InvalidPort)));
    assert!(matches!(target("/relative/path"), Err(AddressError::InvalidHost)));
}

#[test]
fn targets_from_parts() {
    let r: Result<(String, u16), AddressError> = resolve_target(Some("h"), Some(1), Some("zzz"));
    assert_eq!(r.unwrap(), ("h".to_string(), 1));
    let r: Result<(String, u16), AddressError> = resolve_target(Some("h"), None, None);
    assert!(matches!(r, Err(AddressError::InvalidPort)));
    let r: Result<(String, u16), AddressError> = resolve_target(None, Some(1), Some("ws"));
    assert!(matches!(r, Err(AddressError::InvalidHost)));
}

#[test]
fn config_builders() {
    let uri: http::Uri = "wss://ws.bitstamp.net".parse().unwrap();
    let config = Config::new(uri.clone());
    assert_eq!(config.retry_delay, Duration::from_secs(1));
    assert_eq!(config.tick_interval, Duration::from_secs(1));
    assert_eq!(config.uri, uri);
    assert_eq!(config.max_frame_size, None);
    assert_eq!(config.max_message_size, None);
    let config = config
        .with_retry_delay(Duration::from_millis(5))
        .with_tick_interval(Duration::from_secs(3))
        .with_max_frame_size(10)
        .with_max_message_size(20);
    assert_eq!(config.retry_delay, Duration::from_millis(5));
    assert_eq!(config.tick_interval, Duration::from_secs(3));
    assert_eq!(config.max_frame_size, Some(10));
    assert_eq!(config.max_message_size, Some(20));
}

#[test]
fn stream_items() {
    assert!(matches!(order_book_stream::net_utils::ws::recv_outcome::<u8, ()>(Some(Ok(3))), Ok(3)));
    assert!(matches!(
        order_book_stream::net_utils::ws::recv_outcome::<u8, i32>(Some(Err(7))),
        Err(RecvError::Protocol(7))
    ));
    assert!(matches!(order_book_stream::net_utils::ws::recv_outcome::<u8, ()>(None), Err(RecvError::Close)));
}
