use vstd::prelude::*;
use crate::capture::Next;
use crate::error::StartError;
use tokio_tungstenite::tungstenite::handshake::client::generate_key;

verus! {

#[verifier::external_type_specification]
#[verifier::external_body]
#[verifier::reject_recursive_types(T)]
pub struct ExRequest<T>(http::Request<T>);

#[verifier::external_type_specification]
#[verifier::external_body]
pub struct ExHttpError(http::Error);

/// The decimal digit `d` as a character.
pub open spec fn digit_char(d: nat) -> char {
    seq!['0', '1', '2', '3', '4', '5', '6', '7', '8', '9'][d as int]
}

/// The decimal form of `n`, without sign or leading zeros.
pub open spec fn decimal(n: nat) -> Seq<char>
    decreases n,
{
    if n < 10 {
        seq![digit_char(n)]
    } else {
        decimal(n / 10).push(digit_char(n % 10))
    }
}

/// Address of the recognition service for audio at `sample_rate` Hz.
pub open spec fn endpoint_url_spec(sample_rate: nat) -> Seq<char> {
    "wss://api.deepgram.com/v1/listen?encoding=linear16&sample_rate="@ + decimal(sample_rate)
        + "&channels=1&smart_format=true&model=nova-3&language=en-IN&interim_results=true"@
}

/// Headers of the upgrade request: credential, upgrade key and protocol fields.
pub open spec fn handshake_headers_spec(api_key: Seq<char>, ws_key: Seq<char>) -> Seq<
    (Seq<char>, Seq<char>),
> {
    seq![
        ("Authorization"@, "Token "@ + api_key),
        ("Sec-WebSocket-Key"@, ws_key),
        ("Host"@, "api.deepgram.com"@),
        ("Connection"@, "Upgrade"@),
        ("Upgrade"@, "websocket"@),
        ("Sec-WebSocket-Version"@, "13"@),
    ]
}

pub open spec fn header_views(hs: Seq<(String, String)>) -> Seq<(Seq<char>, Seq<char>)> {
    hs.map_values(|h: (String, String)| (h.0@, h.1@))
}

/// Whether http's request builder accepts this method, address and header list.
pub uninterp spec fn request_accepted(
    method: Seq<char>,
    url: Seq<char>,
    headers: Seq<(Seq<char>, Seq<char>)>,
) -> bool;

/// Relies on http::Request::builder with `method`, `uri`, `header` (appended in
/// order) and `body(())`: it fails exactly when a part does not parse, which
/// depends on the arguments alone.
#[verifier::external_body]
fn http_request(method: &str, url: &str, headers: &Vec<(String, String)>) -> (r: Result<
    http::Request<()>,
    http::Error,
>)
    ensures
        r.is_ok() == request_accepted(method@, url@, header_views(headers@)),
{
    let mut b = http::Request::builder().method(method).uri(url);
    for (k, v) in headers.iter() {
        b = b.header(k.as_str(), v.as_str());
    }
    b.body(())
}

/// Relies on tungstenite's generate_key: a fresh random key for the
/// Sec-WebSocket-Key header.
#[verifier::external_body]
fn websocket_key() -> (r: String) {
    generate_key()
}

/// The decimal digit `d` as a one-character string.
fn digit_str(d: u32) -> (r: &'static str)
    requires
        d < 10,
    ensures
        r@ == seq![digit_char(d as nat)],
{
    proof {
        reveal_strlit("0");
        reveal_strlit("1");
        reveal_strlit("2");
        reveal_strlit("3");
        reveal_strlit("4");
        reveal_strlit("5");
        reveal_strlit("6");
        reveal_strlit("7");
        reveal_strlit("8");
        reveal_strlit("9");
    }
    let r = match d {
        0 => "0",
        1 => "1",
        2 => "2",
        3 => "3",
        4 => "4",
        5 => "5",
        6 => "6",
        7 => "7",
        8 => "8",
        _ => "9",
    };
    assert(r@ =~= seq![digit_char(d as nat)]);
    r
}

/// Appends the decimal form of `n` to `s`.
pub fn push_decimal(s: &mut String, n: u32)
    ensures
        final(s)@ == old(s)@ + decimal(n as nat),
    decreases n,
{
    if n >= 10 {
        push_decimal(s, n / 10);
    }
    s.append(digit_str(n % 10));
    proof {
        if n >= 10 {
            assert(decimal(n as nat) == decimal((n / 10) as nat).push(digit_char((n % 10) as nat)));
        }
    }
    assert(s@ =~= old(s)@ + decimal(n as nat));
}

/// The service address for audio at `sample_rate` Hz.
pub fn endpoint_url(sample_rate: u32) -> (r: String)
    ensures
        r@ == endpoint_url_spec(sample_rate as nat),
{
    let mut s = String::from_str("wss://api.deepgram.com/v1/listen?encoding=linear16&sample_rate=");
    push_decimal(&mut s, sample_rate);
    s.append("&channels=1&smart_format=true&model=nova-3&language=en-IN&interim_results=true");
    s
}

/// The upgrade request's headers, carrying `api_key` as a token and `ws_key`
/// as the upgrade key.
pub fn handshake_headers(api_key: &str, ws_key: &str) -> (r: Vec<(String, String)>)
    ensures
        header_views(r@) == handshake_headers_spec(api_key@, ws_key@),
{
    let mut r: Vec<(String, String)> = Vec::new();
    r.push((String::from_str("Authorization"), String::from_str("Token ").concat(api_key)));
    r.push((String::from_str("Sec-WebSocket-Key"), String::from_str(ws_key)));
    r.push((String::from_str("Host"), String::from_str("api.deepgram.com")));
    r.push((String::from_str("Connection"), String::from_str("Upgrade")));
    r.push((String::from_str("Upgrade"), String::from_str("websocket")));
    r.push((String::from_str("Sec-WebSocket-Version"), String::from_str("13")));
    assert(header_views(r@) =~= handshake_headers_spec(api_key@, ws_key@));
    r
}

/// Builds the GET upgrade request for `sample_rate` and `api_key` with the given
/// upgrade key. Fails, with `MalformedRequest`, exactly when the request does not parse.
pub fn upgrade_request(sample_rate: u32, api_key: &str, ws_key: &str) -> (r: Result<
    http::Request<()>,
    StartError,
>)
    ensures
        r.is_ok() == request_accepted(
            "GET"@,
            endpoint_url_spec(sample_rate as nat),
            handshake_headers_spec(api_key@, ws_key@),
        ),
        r matches Err(e) ==> e == StartError::MalformedRequest,
{
    let url = endpoint_url(sample_rate);
    let headers = handshake_headers(api_key, ws_key);
    match http_request("GET", url.as_str(), &headers) {
        Ok(req) => Ok(req),
        Err(_) => Err(StartError::MalformedRequest),
    }
}

/// Builds the upgrade request with a fresh random upgrade key. Fails only with
/// `MalformedRequest`.
pub fn handshake_request(sample_rate: u32, api_key: &str) -> (r: Result<
    http::Request<()>,
    StartError,
>)
    ensures
        r matches Err(e) ==> e == StartError::MalformedRequest,
{
    let key = websocket_key();
    upgrade_request(sample_rate, api_key, key.as_str())
}


/// Lifecycle of the connection to the recognition service.
#[derive(Clone, Copy, Debug, PartialEq, Eq, Structural)]
pub enum LinkState {
    Idle,
    Connecting,
    Streaming,
    Closing,
    Closed,
    Failed,
}

/// One frame read from the service.
#[derive(Debug)]
pub enum Frame {
    Text(String),
    Other,
}

/// What happened that the link must react to.
#[derive(Debug)]
pub enum LinkEvent {
    /// A session asks for a connection.
    Begin,
    /// The upgrade handshake succeeded.
    Connected,
    /// The handshake failed; the cause in words.
    ConnectFailed(String),
    /// The capture channel yielded a batch of encoded audio.
    Batch(Vec<u8>),
    /// The capture channel has ended: no more audio will come.
    InputEnded,
    /// Sending a batch to the service failed.
    SendFailed,
    /// A frame arrived from the service.
    Inbound(Frame),
    /// The connection's teardown has finished.
    CleanupDone,
}

/// What the link asks its runner to do next.
#[derive(Debug)]
pub enum LinkAction {
    /// Open the connection.
    Connect,
    /// Send the batch as one binary frame.
    Send(Vec<u8>),
    /// Hand the text, unchanged, to the notification sink.
    Notify(String),
    /// Stop reading from the service.
    CancelInbound,
    /// Record the failure.
    Report(String),
    Nothing,
}

/// One step of the link: the next state and the action to perform. Text frames
/// that arrive while streaming are forwarded verbatim; batches are sent in the
/// order they come; the end of input or a failed send closes the link; a failed
/// handshake leaves it failed for good. Any other event is ignored.
pub fn link_step(state: LinkState, event: LinkEvent) -> (r: (LinkState, LinkAction))
    ensures
        state == LinkState::Idle && event is Begin ==> r.0 == LinkState::Connecting && r.1
            is Connect,
        state == LinkState::Connecting && event is Connected ==> r.0 == LinkState::Streaming
            && r.1 is Nothing,
        state == LinkState::Connecting ==> (event matches LinkEvent::ConnectFailed(e) ==> r.0
            == LinkState::Failed && r.1 == LinkAction::Report(e)),
        state == LinkState::Streaming ==> (event matches LinkEvent::Batch(b) ==> r.0
            == LinkState::Streaming && r.1 == LinkAction::Send(b)),
        state == LinkState::Streaming ==> (event matches LinkEvent::Inbound(Frame::Text(t))
            ==> r.0 == LinkState::Streaming && r.1 == LinkAction::Notify(t)),
        state == LinkState::Streaming && (event is InputEnded || event is SendFailed) ==> r.0
            == LinkState::Closing && r.1 is CancelInbound,
        state == LinkState::Closing && event is CleanupDone ==> r.0 == LinkState::Closed && r.1
            is Nothing,
        !(state == LinkState::Idle && event is Begin) && !(state == LinkState::Connecting && (
        event is Connected || event is ConnectFailed)) && !(state == LinkState::Streaming && (
        event is Batch || event is Inbound || event is InputEnded || event is SendFailed)) && !(
        state == LinkState::Closing && event is CleanupDone) ==> r.0 == state && r.1 is Nothing,
        state == LinkState::Streaming ==> (event matches LinkEvent::Inbound(Frame::Other) ==> r.0
            == LinkState::Streaming && r.1 is Nothing),
{
    match (state, event) {
        (LinkState::Idle, LinkEvent::Begin) => (LinkState::Connecting, LinkAction::Connect),
        (LinkState::Connecting, LinkEvent::Connected) => (LinkState::Streaming, LinkAction::Nothing),
        (LinkState::Connecting, LinkEvent::ConnectFailed(e)) => (
            LinkState::Failed,
            LinkAction::Report(e),
        ),
        (LinkState::Streaming, LinkEvent::Batch(b)) => (LinkState::Streaming, LinkAction::Send(b)),
        (LinkState::Streaming, LinkEvent::Inbound(Frame::Text(t))) => (
            LinkState::Streaming,
            LinkAction::Notify(t),
        ),
        (LinkState::Streaming, LinkEvent::Inbound(Frame::Other)) => (
            LinkState::Streaming,
            LinkAction::Nothing,
        ),
        (LinkState::Streaming, LinkEvent::InputEnded) => (
            LinkState::Closing,
            LinkAction::CancelInbound,
        ),
        (LinkState::Streaming, LinkEvent::SendFailed) => (
            LinkState::Closing,
            LinkAction::CancelInbound,
        ),
        (LinkState::Closing, LinkEvent::CleanupDone) => (LinkState::Closed, LinkAction::Nothing),
        (s, _) => (s, LinkAction::Nothing),
    }
}

/// The event the capture channel's answer gives the link: a batch to send, the
/// end of input, or none yet.
pub fn channel_event(next: Next) -> (r: Option<LinkEvent>)
    ensures
        next matches Next::Batch(b) ==> r == Some(LinkEvent::Batch(b)),
        next is Ended ==> (r matches Some(e) && e is InputEnded),
        next is Empty ==> r is None,
{
    match next {
        Next::Batch(b) => Some(LinkEvent::Batch(b)),
        Next::Ended => Some(LinkEvent::InputEnded),
        Next::Empty => None,
    }
}

} // verus!
