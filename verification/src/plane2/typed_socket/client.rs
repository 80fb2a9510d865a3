//! The client side of a typed socket: the request that opens it, and what
//! becomes of each frame and each outgoing action.
use crate::plane2::client::{url_username_cleared_parts, ParsedUrl};
use crate::proxy::headers::{add_header, header_safe, headers_view};
use crate::text::push_str;
use vstd::prelude::*;
use vstd::string::*;
use vstd::utf8::encode_utf8;

verus! {

/// The standard, padded base64 encoding of `data`, as `data_encoding::BASE64` computes it.
pub uninterp spec fn base64_encoding(data: Seq<u8>) -> Seq<char>;

/// `data_encoding::BASE64.encode`: the contract claims that the result is the
/// named encoding of the input, four symbols per three bytes of input rounded
/// up (the source's `encode_len` with padding), made of characters a header
/// value may hold (the base64 alphabet and `=`). The source refuses inputs
/// longer than `usize::MAX / 512` bytes.
#[verifier::external_body]
fn base64_encode(data: &[u8]) -> (r: String)
    requires
        data@.len() <= usize::MAX / 512,
    ensures
        r@ == base64_encoding(data@),
        r@.len() == 4 * ((data@.len() + 2) / 3),
        header_safe(r@),
{
    data_encoding::BASE64.encode(data)
}

/// Whether `http::Uri` accepts `text` as a URI.
pub uninterp spec fn uri_accepts(text: Seq<char>) -> bool;

/// `http::Uri::from_str`: whether the text is accepted as a URI.
#[verifier::external_body]
fn parse_uri(text: &str) -> (r: bool)
    ensures
        r == uri_accepts(text@),
{
    text.parse::<http::Uri>().is_ok()
}

/// The request that opens a WebSocket to the controller.
#[derive(Debug)]
pub struct WsRequest {
    /// Always `GET`.
    pub method: String,
    pub uri: String,
    pub headers: Vec<(String, Vec<u8>)>,
}

/// Why the opening request could not be made.
#[derive(Clone, Copy, Debug, PartialEq, Eq, Structural)]
pub enum AuthUrlError {
    /// No host in URL.
    NoHost,
    /// The request could not be built from the URL.
    InvalidRequest,
}

/// The headers of the opening request: the host, the upgrade to a WebSocket
/// with the given key, and, when the URL carries a user name, that name as a
/// bearer token in base64.
pub open spec fn ws_request_headers(host: Seq<char>, username: Seq<char>, key: Seq<char>) -> Seq<
    (Seq<char>, Seq<u8>),
> {
    let base = seq![
        ("host"@, encode_utf8(host)),
        ("connection"@, encode_utf8("Upgrade"@)),
        ("upgrade"@, encode_utf8("websocket"@)),
        ("sec-websocket-version"@, encode_utf8("13"@)),
        ("sec-websocket-key"@, encode_utf8(key)),
    ];
    if username.len() == 0 {
        base
    } else {
        base.push(("authorization"@, encode_utf8("Bearer "@ + base64_encoding(encode_utf8(username)))))
    }
}

/// The text of the request URI for `url`: the URL with its token (its user
/// name) removed; a URL whose user name `url` cannot clear is left as it is.
pub open spec fn uri_without_token(parts: (Seq<char>, Seq<char>, Seq<char>, Option<Seq<char>>)) -> Seq<char> {
    if parts.2.len() == 0 {
        parts.0
    } else {
        match url_username_cleared_parts(parts.0) {
            Some(cleared) => cleared.0,
            None => parts.0,
        }
    }
}

/// Turns a URL (which may have a token) into a request. If the URL contains a
/// token, it is removed from the URL and turned into a bearer token
/// Authorization header. `key` is the request's `Sec-WebSocket-Key`. A token
/// longer than the base64 encoder takes (`usize::MAX / 512` bytes) is refused.
pub fn auth_url_to_request(url: &ParsedUrl, key: &str) -> (r: Result<WsRequest, AuthUrlError>)
    ensures
        match url.parts().3 {
            None => r == Err::<WsRequest, _>(AuthUrlError::NoHost),
            Some(host) => if uri_accepts(uri_without_token(url.parts())) && header_safe(host) && header_safe(key@)
                && encode_utf8(url.parts().2).len() <= usize::MAX / 512 {
                r matches Ok(req) && req.method@ == "GET"@ && req.uri@ == uri_without_token(url.parts())
                    && headers_view(req.headers@) == ws_request_headers(host, url.parts().2, key@)
            } else {
                r == Err::<WsRequest, _>(AuthUrlError::InvalidRequest)
            },
        },
{
    proof {
        reveal_strlit("Upgrade");
        reveal_strlit("websocket");
        reveal_strlit("13");
        reveal_strlit("Bearer ");
    }
    let host = match url.host_str() {
        Some(h) => h,
        None => return Err(AuthUrlError::NoHost),
    };
    let token = url.username();
    let uri = if token.unicode_len() > 0 {
        match url.without_username() {
            Some(cleared) => cleared.as_str().to_owned(),
            None => url.as_str().to_owned(),
        }
    } else {
        url.as_str().to_owned()
    };
    proof {
        assert(uri@ == uri_without_token(url.parts()));
    }
    if token.as_bytes().len() > usize::MAX / 512 || !parse_uri(uri.as_str()) || !crate::proxy::headers::is_header_safe(host)
        || !crate::proxy::headers::is_header_safe(key) {
        return Err(AuthUrlError::InvalidRequest);
    }
    let mut headers: Vec<(String, Vec<u8>)> = Vec::new();
    add_header(&mut headers, "host", host);
    add_header(&mut headers, "connection", "Upgrade");
    add_header(&mut headers, "upgrade", "websocket");
    add_header(&mut headers, "sec-websocket-version", "13");
    add_header(&mut headers, "sec-websocket-key", key);
    if token.unicode_len() > 0 {
        let encoded = base64_encode(token.as_bytes());
        let mut value = "Bearer ".to_owned();
        push_str(&mut value, encoded.as_str());
        proof {
            assert forall|i: int| 0 <= i < value@.len() implies #[trigger] value@[i] == '\t' || (value@[i]
                as int >= 32 && value@[i] as int != 127) by {
                if i >= 7 {
                    assert(value@[i] == encoded@[i - 7]);
                }
            }
        }
        add_header(&mut headers, "authorization", value.as_str());
    }
    proof {
        assert(headers_view(headers@) =~= ws_request_headers(host@, url.parts().2, key@));
    }
    Ok(WsRequest { method: "GET".to_owned(), uri, headers })
}

/// `tungstenite::handshake::client::generate_key`: a random key for the
/// `Sec-WebSocket-Key` header, the base64 encoding of 16 random bytes; the
/// contract claims only that it can be a header value.
#[verifier::external_body]
fn generate_key() -> (r: String)
    ensures
        header_safe(r@),
{
    tokio_tungstenite::tungstenite::handshake::client::generate_key()
}

/// The opening request for `url`, with a newly made key.
pub fn auth_url_to_new_request(url: &ParsedUrl) -> (r: Result<WsRequest, AuthUrlError>)
    ensures
        match url.parts().3 {
            None => r == Err::<WsRequest, _>(AuthUrlError::NoHost),
            Some(host) => if uri_accepts(uri_without_token(url.parts())) && header_safe(host)
                && encode_utf8(url.parts().2).len() <= usize::MAX / 512 {
                r matches Ok(req) && req.method@ == "GET"@ && req.uri@ == uri_without_token(url.parts())
                    && exists|key: Seq<char>| #[trigger] header_safe(key) && headers_view(req.headers@) == ws_request_headers(host, url.parts().2, key)
            } else {
                r == Err::<WsRequest, _>(AuthUrlError::InvalidRequest)
            },
        },
{
    let key = generate_key();
    auth_url_to_request(url, key.as_str())
}

/// A frame that came in on the socket.
#[derive(Debug)]
pub enum IncomingFrame {
    /// A text frame.
    Text(String),
    /// The peer reset the connection without the closing handshake.
    ResetWithoutClosingHandshake,
    /// A close frame.
    CloseFrame,
    /// Any other frame or error.
    Other,
    /// The connection is closed.
    Closed,
}

/// What the socket loop does with an incoming frame.
#[derive(Debug)]
pub enum IncomingStep {
    /// Read the text as a message and hand it on.
    Deliver(String),
    /// Stop the loop.
    Stop,
    /// Leave it and go on.
    Ignore,
}

pub fn on_incoming(frame: IncomingFrame) -> (r: IncomingStep)
    ensures
        match frame {
            IncomingFrame::Text(t) => r matches IncomingStep::Deliver(m) && m@ == t@,
            IncomingFrame::ResetWithoutClosingHandshake => r is Stop,
            IncomingFrame::CloseFrame => r is Ignore,
            IncomingFrame::Other => r is Ignore,
            IncomingFrame::Closed => r is Stop,
        },
{
    match frame {
        IncomingFrame::Text(t) => IncomingStep::Deliver(t),
        IncomingFrame::ResetWithoutClosingHandshake => IncomingStep::Stop,
        IncomingFrame::CloseFrame => IncomingStep::Ignore,
        IncomingFrame::Other => IncomingStep::Ignore,
        IncomingFrame::Closed => IncomingStep::Stop,
    }
}

/// What the server side does with an incoming frame: text is read as a
/// message, a close frame or the end of the stream stops it, and a reset or
/// any other frame is passed over.
pub fn server_on_incoming(frame: IncomingFrame) -> (r: IncomingStep)
    ensures
        match frame {
            IncomingFrame::Text(t) => r matches IncomingStep::Deliver(m) && m@ == t@,
            IncomingFrame::ResetWithoutClosingHandshake => r is Ignore,
            IncomingFrame::CloseFrame => r is Stop,
            IncomingFrame::Other => r is Ignore,
            IncomingFrame::Closed => r is Stop,
        },
{
    match frame {
        IncomingFrame::Text(t) => IncomingStep::Deliver(t),
        IncomingFrame::ResetWithoutClosingHandshake => IncomingStep::Ignore,
        IncomingFrame::CloseFrame => IncomingStep::Stop,
        IncomingFrame::Other => IncomingStep::Ignore,
        IncomingFrame::Closed => IncomingStep::Stop,
    }
}

/// What the socket loop does with what its owner asks: `None` is an owner that
/// is gone.
#[derive(Debug)]
pub enum OutgoingStep {
    /// Send a close frame and stop the loop.
    CloseAndStop,
    /// Send this text frame.
    Send(String),
    /// Stop taking requests from the owner.
    CloseChannel,
}

pub fn on_outgoing(action: Option<crate::typed_socket::SocketAction<String>>) -> (r: OutgoingStep)
    ensures
        match action {
            None => r is CloseAndStop,
            Some(crate::typed_socket::SocketAction::Send(m)) => r matches OutgoingStep::Send(t) && t@ == m@,
            Some(crate::typed_socket::SocketAction::Close) => r is CloseChannel,
        },
{
    match action {
        None => OutgoingStep::CloseAndStop,
        Some(crate::typed_socket::SocketAction::Send(m)) => OutgoingStep::Send(m),
        Some(crate::typed_socket::SocketAction::Close) => OutgoingStep::CloseChannel,
    }
}

/// The first message the server sends must be text: its handshake. `None` is
/// a socket closed before it came.
pub fn handshake_text(frame: Option<IncomingFrame>) -> (r: Result<String, &'static str>)
    ensures
        match frame {
            None => r matches Err(e) && e@ == "Socket closed before handshake received."@,
            Some(IncomingFrame::Closed) => r matches Err(e) && e@ == "Socket closed before handshake received."@,
            Some(IncomingFrame::Text(t)) => r matches Ok(m) && m@ == t@,
            Some(_) => r matches Err(e) && e@ == "Handshake message was not text."@,
        },
{
    match frame {
        None => Err("Socket closed before handshake received."),
        Some(IncomingFrame::Closed) => Err("Socket closed before handshake received."),
        Some(IncomingFrame::Text(t)) => Ok(t),
        Some(_) => Err("Handshake message was not text."),
    }
}

} // verus!
