//! The handling of WebSocket messages, the address of a WebSocket endpoint,
//! and the decisions taken when a connection fails.
use vstd::prelude::*;
use crate::net_utils::retry::{Retryable, io_kind_is_transient, io_error_kind};

verus! {

// The variants of `tungstenite::Error` and of its `ProtocolError` are read by
// the classification below, so both are declared with their variants; the
// types of their fields are declared opaque.
#[verifier::external_type_specification]
pub struct ExWsError(tungstenite::error::Error);

#[verifier::external_type_specification]
pub struct ExWsProtocolError(tungstenite::error::ProtocolError);

#[verifier::external_type_specification]
#[verifier::external_body]
pub struct ExWsTlsError(tungstenite::error::TlsError);

#[verifier::external_type_specification]
#[verifier::external_body]
pub struct ExWsCapacityError(tungstenite::error::CapacityError);

#[verifier::external_type_specification]
#[verifier::external_body]
pub struct ExWsSubProtocolError(tungstenite::error::SubProtocolError);

#[verifier::external_type_specification]
#[verifier::external_body]
pub struct ExWsFrameData(tungstenite::protocol::frame::coding::Data);

#[verifier::external_type_specification]
#[verifier::external_body]
pub struct ExHttpHeaderName(http::header::HeaderName);

#[verifier::external_type_specification]
#[verifier::external_body]
pub struct ExHttparseError(httparse::Error);

#[verifier::external_type_specification]
#[verifier::external_body]
pub struct ExWsUrlError(tungstenite::error::UrlError);

#[verifier::external_type_specification]
#[verifier::external_body]
pub struct ExWsMessage(tungstenite::protocol::Message);

#[verifier::external_type_specification]
#[verifier::external_body]
#[verifier::reject_recursive_types(T)]
pub struct ExHttpResponse<T>(http::Response<T>);

#[verifier::external_type_specification]
#[verifier::external_body]
pub struct ExHttpError(http::Error);

#[verifier::external_type_specification]
#[verifier::external_body]
pub struct ExAnyhowError(anyhow::Error);

#[verifier::external_type_specification]
#[verifier::external_body]
pub struct ExUri(http::Uri);

/// The protocol errors that mean the peer went away mid-connection.
pub open spec fn protocol_is_transient(err: tungstenite::error::ProtocolError) -> bool {
    ||| err is ResetWithoutClosingHandshake
    ||| err is SendAfterClosing
    ||| err is ReceivedAfterClosing
}

/// The WebSocket failures that a new connection may get past: a closed
/// connection, a peer gone mid-connection, or a transient I/O failure.
pub open spec fn ws_error_is_transient(err: tungstenite::error::Error) -> bool {
    match err {
        tungstenite::error::Error::ConnectionClosed => true,
        tungstenite::error::Error::Protocol(p) => protocol_is_transient(p),
        tungstenite::error::Error::Io(io) => io_kind_is_transient(io_error_kind(io)),
        _ => false,
    }
}

impl Retryable for tungstenite::error::Error {
    open spec fn retry_spec(&self) -> bool {
        ws_error_is_transient(*self)
    }

    fn should_retry(&self) -> (retry: bool) {
        match self {
            tungstenite::error::Error::ConnectionClosed => true,
            tungstenite::error::Error::Protocol(p) => match p {
                tungstenite::error::ProtocolError::ResetWithoutClosingHandshake => true,
                tungstenite::error::ProtocolError::SendAfterClosing => true,
                tungstenite::error::ProtocolError::ReceivedAfterClosing => true,
                _ => false,
            },
            tungstenite::error::Error::Io(err) => err.should_retry(),
            _ => false,
        }
    }
}

/// A failure to receive the next message.
#[derive(Debug)]
pub enum RecvError<E> {
    /// The peer closed the connection.
    Close,
    /// A binary message came on a text connection.
    UnexpectedBinary,
    /// A text message came on a binary connection.
    UnexpectedText,
    /// A text message did not parse; it carries the text.
    InvalidTextMsg(String),
    /// A raw frame came where a message was expected.
    UnexpectedFrame,
    /// The transport failed.
    Protocol(E),
}

impl<E: Retryable> Retryable for RecvError<E> {
    open spec fn retry_spec(&self) -> bool {
        match self {
            RecvError::Close => true,
            RecvError::Protocol(err) => err.retry_spec(),
            _ => false,
        }
    }

    fn should_retry(&self) -> (retry: bool) {
        match self {
            RecvError::Close => true,
            RecvError::UnexpectedBinary => false,
            RecvError::UnexpectedText => false,
            RecvError::UnexpectedFrame => false,
            RecvError::InvalidTextMsg(_) => false,
            RecvError::Protocol(err) => err.should_retry(),
        }
    }
}

/// A failure to derive a socket address from a URI.
#[derive(Debug)]
pub enum AddressError<E = std::io::Error> {
    /// The URI names no host.
    InvalidHost,
    /// The URI names no port, and its scheme has no default port.
    InvalidPort,
    /// The host name could not be resolved.
    ParseError(E),
    /// The host name resolved to no address.
    EmptySocketAddr,
}

/// A failure of one connection.
#[derive(Debug)]
pub enum PollError {
    /// The TCP connection failed.
    Connect(std::io::Error),
    /// The WebSocket handshake failed.
    WsConnect(tungstenite::error::Error),
    /// The URI gave no address.
    AddressError(AddressError),
    /// The client's handler failed.
    ClientError(anyhow::Error),
    /// Receiving a message failed.
    Recv(RecvError<tungstenite::error::Error>),
}

impl Retryable for PollError {
    open spec fn retry_spec(&self) -> bool {
        match self {
            PollError::Connect(err) => err.retry_spec(),
            PollError::WsConnect(err) => err.retry_spec(),
            PollError::AddressError(_) => false,
            PollError::ClientError(_) => false,
            PollError::Recv(err) => err.retry_spec(),
        }
    }

    fn should_retry(&self) -> (retry: bool) {
        match self {
            PollError::Connect(err) => err.should_retry(),
            PollError::WsConnect(err) => err.should_retry(),
            PollError::AddressError(_) => false,
            PollError::ClientError(_) => false,
            PollError::Recv(err) => err.should_retry(),
        }
    }
}

/// A failure to receive is retried exactly when its cause is: the decision
/// for `Recv(e)` is the decision for `e`, so a transport failure is retried
/// exactly when the WebSocket error is transient (among them a stream reset
/// without a close handshake, a reset connection and a closed connection), a
/// closed stream is retried, and a message that could not be read is not. A
/// failed handshake or TCP connection is likewise retried exactly when its
/// error is transient.
pub proof fn lemma_poll_error_retry(
    e: RecvError<tungstenite::error::Error>,
    w: tungstenite::error::Error,
    io: std::io::Error,
    text: String,
)
    ensures
        PollError::Recv(e).retry_spec() == e.retry_spec(),
        PollError::Recv(RecvError::Protocol(w)).retry_spec() == w.retry_spec(),
        PollError::Recv(RecvError::Protocol(w)).retry_spec() == ws_error_is_transient(w),
        PollError::Recv(RecvError::Close).retry_spec(),
        !PollError::Recv(RecvError::InvalidTextMsg(text)).retry_spec(),
        !PollError::Recv(RecvError::UnexpectedBinary).retry_spec(),
        !PollError::Recv(RecvError::UnexpectedText).retry_spec(),
        !PollError::Recv(RecvError::UnexpectedFrame).retry_spec(),
        PollError::Recv(RecvError::Protocol(tungstenite::error::Error::ConnectionClosed)).retry_spec(),
        PollError::Recv(
            RecvError::Protocol(
                tungstenite::error::Error::Protocol(
                    tungstenite::error::ProtocolError::ResetWithoutClosingHandshake,
                ),
            ),
        ).retry_spec(),
        io_error_kind(io) == std::io::ErrorKind::ConnectionReset ==> PollError::Recv(
            RecvError::Protocol(tungstenite::error::Error::Io(io)),
        ).retry_spec(),
        PollError::Recv(RecvError::Protocol(tungstenite::error::Error::Io(io))).retry_spec()
            == io_error_kind(io).retry_spec(),
        PollError::WsConnect(w).retry_spec() == w.retry_spec(),
        PollError::Connect(io).retry_spec() == io_error_kind(io).retry_spec(),
{
}

/// What the connection loop does after a connection ended.
#[derive(Debug)]
pub enum LoopStep {
    /// Stop, with this result.
    Finish(Result<(), PollError>),
    /// Wait the retry delay and connect again; the failure is reported.
    Reconnect(PollError),
}

/// The connection loop's decision after a connection ended with `res`: a
/// clean end stops the loop, a transient failure reconnects, any other
/// failure stops the loop with that failure.
pub fn after_poll(res: Result<(), PollError>) -> (step: LoopStep)
    ensures
        res is Ok ==> step matches LoopStep::Finish(Ok(())),
        res matches Err(err) ==> if err.retry_spec() {
            step == LoopStep::Reconnect(err)
        } else {
            step == LoopStep::Finish(Err(err))
        },
{
    match res {
        Ok(()) => LoopStep::Finish(Ok(())),
        Err(err) => {
            if err.should_retry() {
                LoopStep::Reconnect(err)
            } else {
                LoopStep::Finish(Err(err))
            }
        },
    }
}

/// What the next item of a message stream gives: the message, the stream's
/// error as a `Protocol` failure, or `Close` when the stream has ended.
pub fn recv_outcome<T, E>(item: Option<Result<T, E>>) -> (res: Result<T, RecvError<E>>)
    ensures
        item matches Some(Ok(msg)) ==> res == Ok::<T, RecvError<E>>(msg),
        item matches Some(Err(err)) ==> res == Err::<T, RecvError<E>>(RecvError::Protocol(err)),
        item is None ==> res matches Err(RecvError::Close),
{
    match item {
        Some(Ok(msg)) => Ok(msg),
        Some(Err(err)) => Err(RecvError::Protocol(err)),
        None => Err(RecvError::Close),
    }
}

/// The close frame of a close message: its code and reason.
#[derive(Debug, Clone)]
pub struct CloseFrame {
    pub code: u16,
    pub reason: String,
}

/// A WebSocket message, its payloads as plain values.
#[derive(Debug, Clone)]
pub enum WsMessage {
    Text(String),
    Binary(Vec<u8>),
    Ping(Vec<u8>),
    Pong(Vec<u8>),
    Close(Option<CloseFrame>),
    Frame(Vec<u8>),
}

/// The text message `msg`.
pub fn text_message(msg: String) -> (message: WsMessage)
    ensures
        message == WsMessage::Text(msg),
{
    WsMessage::Text(msg)
}

/// What a connection does with a received message.
#[derive(Debug, Clone)]
pub enum Incoming {
    /// A control message: nothing to hand on.
    Skip,
    /// A binary message for the client.
    Binary(Vec<u8>),
    /// A text message for the client.
    Text(String),
}

/// Routes a received message: pings and pongs are skipped, text and binary
/// messages go to the client, a close ends the connection, and a raw frame
/// is an error.
pub fn route_message<E>(message: WsMessage) -> (res: Result<Incoming, RecvError<E>>)
    ensures
        message is Ping ==> res matches Ok(Incoming::Skip),
        message is Pong ==> res matches Ok(Incoming::Skip),
        message matches WsMessage::Binary(bytes) ==> (res matches Ok(Incoming::Binary(b)) && b == bytes),
        message matches WsMessage::Text(text) ==> (res matches Ok(Incoming::Text(t)) && t == text),
        message is Close ==> res matches Err(RecvError::Close),
        message is Frame ==> res matches Err(RecvError::UnexpectedFrame),
{
    match message {
        WsMessage::Ping(_) => Ok(Incoming::Skip),
        WsMessage::Pong(_) => Ok(Incoming::Skip),
        WsMessage::Binary(bytes) => Ok(Incoming::Binary(bytes)),
        WsMessage::Text(text) => Ok(Incoming::Text(text)),
        WsMessage::Close(_) => Err(RecvError::Close),
        WsMessage::Frame(_) => Err(RecvError::UnexpectedFrame),
    }
}

/// `str::parse`, its error dropped. The parse is the target type's own, so
/// nothing is stated of its result.
#[verifier::external_body]
fn parse_text<T: core::str::FromStr>(text: &str) -> Option<T> {
    text.parse().ok()
}

/// What a text message gives once its text was parsed: the value, or, when
/// the text did not parse, an error carrying the text.
pub fn text_outcome<T, E>(text: String, parsed: Option<T>) -> (res: Result<Option<T>, RecvError<E>>)
    ensures
        parsed matches Some(v) ==> res == Ok::<Option<T>, RecvError<E>>(Some(v)),
        parsed is None ==> (res matches Err(RecvError::InvalidTextMsg(t)) && t == text),
{
    match parsed {
        Some(v) => Ok(Some(v)),
        None => Err(RecvError::InvalidTextMsg(text)),
    }
}

/// Reads a message on a text connection: pings and pongs give nothing, a
/// text message gives its parsed value or, when it does not parse, an error
/// carrying the text; a close, a binary message and a raw frame are errors.
pub fn parse_message<T: core::str::FromStr, E>(message: WsMessage) -> (res: Result<
    Option<T>,
    RecvError<E>,
>)
    ensures
        message is Ping ==> res matches Ok(None),
        message is Pong ==> res matches Ok(None),
        message is Close ==> res matches Err(RecvError::Close),
        message is Binary ==> res matches Err(RecvError::UnexpectedBinary),
        message is Frame ==> res matches Err(RecvError::UnexpectedFrame),
        message matches WsMessage::Text(text) ==> (res matches Ok(Some(_)) || (res matches Err(
            RecvError::InvalidTextMsg(t),
        ) && t == text)),
{
    match message {
        WsMessage::Ping(_) => Ok(None),
        WsMessage::Pong(_) => Ok(None),
        WsMessage::Close(_) => Err(RecvError::Close),
        WsMessage::Binary(_) => Err(RecvError::UnexpectedBinary),
        WsMessage::Text(text) => {
            let parsed = parse_text(text.as_str());
            text_outcome(text, parsed)
        },
        WsMessage::Frame(_) => Err(RecvError::UnexpectedFrame),
    }
}

/// Reads a message on a binary connection: pings and pongs give nothing, a
/// binary message gives its bytes; a close, a text message and a raw frame
/// are errors.
pub fn to_binary_message<E>(message: WsMessage) -> (res: Result<Option<Vec<u8>>, RecvError<E>>)
    ensures
        message is Ping ==> res matches Ok(None),
        message is Pong ==> res matches Ok(None),
        message is Close ==> res matches Err(RecvError::Close),
        message matches WsMessage::Binary(bytes) ==> (res matches Ok(Some(b)) && b == bytes),
        message is Text ==> res matches Err(RecvError::UnexpectedText),
        message is Frame ==> res matches Err(RecvError::UnexpectedFrame),
{
    match message {
        WsMessage::Ping(_) => Ok(None),
        WsMessage::Pong(_) => Ok(None),
        WsMessage::Close(_) => Err(RecvError::Close),
        WsMessage::Binary(bytes) => Ok(Some(bytes)),
        WsMessage::Text(_) => Err(RecvError::UnexpectedText),
        WsMessage::Frame(_) => Err(RecvError::UnexpectedFrame),
    }
}

/// What `std::time::Duration::from_secs` returns.
pub uninterp spec fn duration_from_secs(secs: u64) -> std::time::Duration;

/// `std::time::Duration::from_secs`: a duration of whole seconds.
#[verifier::external_body]
fn seconds(secs: u64) -> (d: std::time::Duration)
    ensures
        d == duration_from_secs(secs),
{
    std::time::Duration::from_secs(secs)
}

/// `Clone::clone` of `http::Uri`, whose `Clone` is derived: the clone is
/// the same URI.
pub assume_specification[ <http::Uri as Clone>::clone ](uri: &http::Uri) -> (r: http::Uri)
    ensures
        r == *uri,
;

/// `Clone::clone` of `std::time::Duration`, a `Copy` type: the clone is the
/// same duration.
pub assume_specification[ <std::time::Duration as Clone>::clone ](
    d: &std::time::Duration,
) -> (r: std::time::Duration)
    ensures
        r == *d,
;

/// The settings of a WebSocket connection loop.
#[derive(Debug, Clone)]
pub struct Config {
    pub retry_delay: std::time::Duration,
    pub tick_interval: std::time::Duration,
    pub uri: http::Uri,
    pub max_frame_size: Option<usize>,
    pub max_message_size: Option<usize>,
}

impl Config {
    /// The settings for `uri`: one second between reconnections and between
    /// ticks, no limit on frames or messages beyond the library defaults.
    pub fn new(uri: http::Uri) -> (config: Self)
        ensures
            config.retry_delay == duration_from_secs(1),
            config.tick_interval == duration_from_secs(1),
            config.uri == uri,
            config.max_frame_size is None,
            config.max_message_size is None,
    {
        Self {
            retry_delay: seconds(1),
            tick_interval: seconds(1),
            uri,
            max_frame_size: None,
            max_message_size: None,
        }
    }

    pub fn with_retry_delay(self, retry_delay: std::time::Duration) -> (config: Self)
        ensures
            config == (Config { retry_delay, ..self }),
    {
        let mut config = self;
        config.retry_delay = retry_delay;
        config
    }

    pub fn with_tick_interval(self, tick_interval: std::time::Duration) -> (config: Self)
        ensures
            config == (Config { tick_interval, ..self }),
    {
        let mut config = self;
        config.tick_interval = tick_interval;
        config
    }

    pub fn with_max_frame_size(self, max_frame_size: usize) -> (config: Self)
        ensures
            config == (Config { max_frame_size: Some(max_frame_size), ..self }),
    {
        let mut config = self;
        config.max_frame_size = Some(max_frame_size);
        config
    }

    pub fn with_max_message_size(self, max_message_size: usize) -> (config: Self)
        ensures
            config == (Config { max_message_size: Some(max_message_size), ..self }),
    {
        let mut config = self;
        config.max_message_size = Some(max_message_size);
        config
    }
}

/// The port that a scheme implies: 80 for `http` and `ws`, 443 for `https`
/// and `wss`, none for any other scheme or none.
pub open spec fn default_port(scheme: Option<Seq<char>>) -> Option<u16> {
    match scheme {
        Some(s) => if s == "http"@ || s == "ws"@ {
            Some(80u16)
        } else if s == "https"@ || s == "wss"@ {
            Some(443u16)
        } else {
            None
        },
        None => None,
    }
}

/// The port to connect to: the explicit one, else the scheme's default.
pub open spec fn target_port(port: Option<u16>, scheme: Option<Seq<char>>) -> Option<u16> {
    match port {
        Some(p) => Some(p),
        None => default_port(scheme),
    }
}

/// An explicit port is the port connected to, whatever the scheme. Without
/// one, `ws` and `http` give 80, `wss` and `https` give 443, and no scheme
/// gives none.
pub proof fn lemma_explicit_port_wins(p: u16, scheme: Option<Seq<char>>)
    ensures
        target_port(Some(p), scheme) == Some(p),
        target_port(None, scheme) == default_port(scheme),
        target_port(None, Some("ws"@)) == Some(80u16),
        target_port(None, Some("http"@)) == Some(80u16),
        target_port(None, Some("wss"@)) == Some(443u16),
        target_port(None, Some("https"@)) == Some(443u16),
        target_port(None, None) is None,
{
    reveal_strlit("ws");
    reveal_strlit("http");
    reveal_strlit("wss");
    reveal_strlit("https");
    assert("ws"@.len() != "http"@.len());
    assert("wss"@.len() != "http"@.len());
    assert("wss"@ != "ws"@);
    assert("https"@ != "http"@);
    assert("https"@ != "ws"@);
}

pub open spec fn opt_view(s: Option<&str>) -> Option<Seq<char>> {
    match s {
        Some(t) => Some(t@),
        None => None,
    }
}

fn str_eq(a: &str, b: &str) -> (eq: bool)
    ensures
        eq == (a@ == b@),
{
    String::from_str(a) == String::from_str(b)
}

/// The host and port to connect to, given a URI's host, port and scheme: a
/// missing host is `InvalidHost`; a missing port is the scheme's default,
/// and `InvalidPort` when the scheme has none.
pub fn resolve_target<E>(host: Option<&str>, port: Option<u16>, scheme: Option<&str>) -> (res:
    Result<(String, u16), AddressError<E>>)
    ensures
        host is None ==> res matches Err(AddressError::InvalidHost),
        host is Some && target_port(port, opt_view(scheme)) is None ==> res matches Err(
            AddressError::InvalidPort,
        ),
        host matches Some(h) ==> (target_port(port, opt_view(scheme)) matches Some(p) ==> (
        res matches Ok((name, q)) && name@ == h@ && q == p)),
        host matches Some(h) ==> (port matches Some(p) ==> (res matches Ok((name, q)) && name@
            == h@ && q == p)),
{
    let host = match host {
        Some(h) => h,
        None => return Err(AddressError::InvalidHost),
    };
    proof {
        reveal_strlit("http");
        reveal_strlit("https");
        reveal_strlit("ws");
        reveal_strlit("wss");
    }
    let port = match port {
        Some(p) => p,
        None => match scheme {
            Some(s) => {
                if str_eq(s, "http") || str_eq(s, "ws") {
                    80u16
                } else if str_eq(s, "https") || str_eq(s, "wss") {
                    443u16
                } else {
                    return Err(AddressError::InvalidPort);
                }
            },
            None => return Err(AddressError::InvalidPort),
        },
    };
    Ok((String::from_str(host), port))
}

/// What `http::Uri::host` returns, as text.
pub uninterp spec fn uri_host(uri: http::Uri) -> Option<Seq<char>>;

/// What `http::Uri::port_u16` returns.
pub uninterp spec fn uri_port(uri: http::Uri) -> Option<u16>;

/// What `http::Uri::scheme_str` returns, as text.
pub uninterp spec fn uri_scheme(uri: http::Uri) -> Option<Seq<char>>;

/// `http::Uri::host`: the host of the URI's authority, if it has one.
#[verifier::external_body]
fn host_of(uri: &http::Uri) -> (host: Option<&str>)
    ensures
        opt_view(host) == uri_host(*uri),
{
    uri.host()
}

/// `http::Uri::port_u16`: the port of the URI's authority, if it has one.
#[verifier::external_body]
fn port_of(uri: &http::Uri) -> (port: Option<u16>)
    ensures
        port == uri_port(*uri),
{
    uri.port_u16()
}

/// `http::Uri::scheme_str`: the URI's scheme, if it has one.
#[verifier::external_body]
fn scheme_of(uri: &http::Uri) -> (scheme: Option<&str>)
    ensures
        opt_view(scheme) == uri_scheme(*uri),
{
    uri.scheme_str()
}

/// The host and port to connect to for a URI (see `resolve_target`). Turning
/// them into a socket address is a name lookup, left to the caller.
pub fn connect_target<E>(uri: &http::Uri) -> (res: Result<(String, u16), AddressError<E>>)
    ensures
        uri_host(*uri) is None ==> res matches Err(AddressError::InvalidHost),
        uri_host(*uri) is Some && target_port(uri_port(*uri), uri_scheme(*uri)) is None
            ==> res matches Err(AddressError::InvalidPort),
        uri_host(*uri) matches Some(h) ==> (target_port(uri_port(*uri), uri_scheme(*uri)) matches Some(
            p,
        ) ==> (res matches Ok((name, q)) && name@ == h && q == p)),
        uri_host(*uri) matches Some(h) ==> (uri_port(*uri) matches Some(p) ==> (res matches Ok(
            (name, q),
        ) && name@ == h && q == p)),
{
    resolve_target(host_of(uri), port_of(uri), scheme_of(uri))
}

} // verus!
