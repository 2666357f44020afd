//! The Rapids client: building outbound messages for the message queue.
//!
//! Every post needs the queue endpoint from the process-wide configuration
//! and the selected transport.  In HTTP mode each event becomes one POST
//! request to `endpoint/event`; in TCP mode each event becomes one framed
//! byte sequence written over a fresh connection.  The functions here decide
//! and build: they return the exact request to perform, and the host
//! application performs it.

use crate::framing::{spec_pack, pack, CHUNK_LENGTH_LIMIT};
use crate::json_body::{
    lemma_broadcast_body_len, lemma_reply_body_len, broadcast_body, reply_body,
    spec_broadcast_body, spec_reply_body,
};
use crate::json_body::lemma_encode_utf8_len;
use vstd::prelude::*;
use vstd::string::{StrSliceExecFns, StringExecFns};
use vstd::utf8::encode_utf8;

verus! {

/// A declared content type, such as `text/plain`, kept as its full essence
/// string.
#[derive(Debug)]
pub struct MimeType {
    essence: String,
}

impl View for MimeType {
    type V = Seq<char>;

    closed spec fn view(&self) -> Seq<char> {
        self.essence@
    }
}

impl MimeType {
    /// A content type from its essence string, such as `application/pdf`.
    pub fn new(essence: &str) -> (r: MimeType)
        ensures
            r@ == essence@,
    {
        MimeType { essence: String::from_str(essence) }
    }

    /// The essence string of this content type.
    pub fn as_str(&self) -> (r: &str)
        ensures
            r@ == self@,
    {
        self.essence.as_str()
    }

    /// The `text/plain` content type.
    pub fn txt() -> (r: MimeType)
        ensures
            r@ == "text/plain"@,
    {
        MimeType::new("text/plain")
    }

    /// The `application/json` content type.
    pub fn json() -> (r: MimeType)
        ensures
            r@ == "application/json"@,
    {
        MimeType::new("application/json")
    }
}

impl Clone for MimeType {
    fn clone(&self) -> (r: MimeType)
        ensures
            r@ == self@,
    {
        MimeType { essence: self.essence.clone() }
    }
}

/// The headers attached to an outbound payload: only a content type.
#[derive(Clone, Debug)]
pub struct Headers {
    pub content_type: MimeType,
}

/// How posts reach the queue: one HTTP request per event, or one framed
/// byte sequence per event over its own TCP connection.
#[derive(Clone, Copy, Debug, PartialEq, Eq)]
pub enum Transport {
    Http,
    Tcp,
}

/// Process-wide configuration, injected once at startup: the queue endpoint,
/// when one is configured, and the selected transport.
#[derive(Clone, Debug)]
pub struct Config {
    /// The queue endpoint: a base URL in HTTP mode, a `host:port` address in
    /// TCP mode.  Absent when the environment names none.
    pub endpoint: Option<String>,
    /// The transport selected from the invocation shape.
    pub mode: Transport,
}

/// Why an outbound message could not be built or sent.  Building fails only
/// for a missing endpoint; the host application reports connection and write
/// failures with the remaining variants.
#[derive(Clone, Copy, Debug, PartialEq, Eq)]
pub enum TransportError {
    /// No queue endpoint is configured.
    MissingConfig,
    /// The connection to the endpoint could not be established.
    ConnectFailed,
    /// The message could not be fully written or acknowledged.
    SendFailed,
    /// A local read failed before the message could be built.
    Io,
}

/// One fully built outbound request, ready for the host application to
/// perform.
#[derive(Debug)]
pub enum OutboundRequest {
    /// POST `url` with the body and, when one is declared, a `Content-Type`
    /// header.
    Http { url: String, content_type: Option<MimeType>, body: Vec<u8> },
    /// Connect to `address`, write `frame`, flush, and shut the connection
    /// down in an orderly way: the closure itself delimits the message.
    Tcp { address: String, frame: Vec<u8> },
}

/// The content type essence carried by an optional content type.
pub open spec fn spec_mime_view(o: Option<MimeType>) -> Option<Seq<char>> {
    match o {
        Some(m) => Some(m@),
        None => None,
    }
}

/// Select the transport from the shape of the invocation: exactly two
/// positional arguments select TCP framing, every other shape selects HTTP.
/// The count alone decides; the arguments' contents are never inspected.
pub fn select_transport(args: &[String]) -> (t: Transport)
    ensures
        t == (if args@.len() == 2 {
            Transport::Tcp
        } else {
            Transport::Http
        }),
{
    if args.len() == 2 {
        Transport::Tcp
    } else {
        Transport::Http
    }
}

/// Build the post of an event to the queue (Rapids) with a payload and an
/// optional declared content type.
///
/// Fails with `MissingConfig` exactly when no endpoint is configured.  With
/// an endpoint, HTTP mode yields a POST of the raw body to `endpoint/event`,
/// and TCP mode yields the two-chunk frame of event name and body addressed
/// to the endpoint.
pub fn post_to_rapids(
    config: &Config,
    event: &str,
    body: &[u8],
    content_type: Option<MimeType>,
) -> (r: Result<OutboundRequest, TransportError>)
    requires
        encode_utf8(event@).len() < CHUNK_LENGTH_LIMIT,
        body@.len() < CHUNK_LENGTH_LIMIT,
    ensures
        config.endpoint is None ==> r == Err::<OutboundRequest, TransportError>(
            TransportError::MissingConfig,
        ),
        config.endpoint matches Some(ep) ==> config.mode == Transport::Tcp ==> (
        r matches Ok(OutboundRequest::Tcp { address, frame }) && address@ == ep@ && frame@
            == spec_pack(event@, body@)),
        config.endpoint matches Some(ep) ==> config.mode == Transport::Http ==> (
        r matches Ok(OutboundRequest::Http { url, content_type: ct, body: b }) && url@ == ep@
            + "/"@ + event@ && spec_mime_view(ct) == spec_mime_view(content_type) && b@ == body@),
{
    let ep = match &config.endpoint {
        Some(ep) => ep,
        None => {
            return Err(TransportError::MissingConfig);
        },
    };
    match config.mode {
        Transport::Tcp => {
            let frame = match pack(event, body) {
                Ok(f) => f,
                Err(_) => unreached(),
            };
            Ok(OutboundRequest::Tcp { address: ep.clone(), frame })
        },
        Transport::Http => {
            let mut url = ep.clone();
            url.append("/");
            url.append(event);
            Ok(OutboundRequest::Http { url, content_type, body: vstd::slice::slice_to_vec(body) })
        },
    }
}

/// Build the post of an event with a string payload and no declared content
/// type.
pub fn post_str_to_rapids(config: &Config, event: &str, body: &str) -> (r: Result<
    OutboundRequest,
    TransportError,
>)
    requires
        encode_utf8(event@).len() < CHUNK_LENGTH_LIMIT,
        encode_utf8(body@).len() < CHUNK_LENGTH_LIMIT,
    ensures
        config.endpoint is None ==> r == Err::<OutboundRequest, TransportError>(
            TransportError::MissingConfig,
        ),
        config.endpoint matches Some(ep) ==> config.mode == Transport::Tcp ==> (
        r matches Ok(OutboundRequest::Tcp { address, frame }) && address@ == ep@ && frame@
            == spec_pack(event@, encode_utf8(body@))),
        config.endpoint matches Some(ep) ==> config.mode == Transport::Http ==> (
        r matches Ok(OutboundRequest::Http { url, content_type: ct, body: b }) && url@ == ep@
            + "/"@ + event@ && ct is None && b@ == encode_utf8(body@)),
{
    let body_bytes = body.as_bytes_vec();
    post_to_rapids(config, event, body_bytes.as_slice(), None)
}

/// Build the post of an event without a payload.
pub fn post_event_to_rapids(config: &Config, event: &str) -> (r: Result<
    OutboundRequest,
    TransportError,
>)
    requires
        encode_utf8(event@).len() < CHUNK_LENGTH_LIMIT,
    ensures
        config.endpoint is None ==> r == Err::<OutboundRequest, TransportError>(
            TransportError::MissingConfig,
        ),
        config.endpoint matches Some(ep) ==> config.mode == Transport::Tcp ==> (
        r matches Ok(OutboundRequest::Tcp { address, frame }) && address@ == ep@ && frame@
            == spec_pack(event@, Seq::<u8>::empty())),
        config.endpoint matches Some(ep) ==> config.mode == Transport::Http ==> (
        r matches Ok(OutboundRequest::Http { url, content_type: ct, body: b }) && url@ == ep@
            + "/"@ + event@ && ct is None && b@ == Seq::<u8>::empty()),
{
    let body: Vec<u8> = Vec::new();
    post_to_rapids(config, event, body.as_slice(), None)
}

/// Build a reply to the originator of the trace, with a payload and its
/// content type.
///
/// The reply always targets the control event `$reply`.  In HTTP mode the
/// body is exactly the raw payload, with the content type as header; in TCP
/// mode the body is the JSON reply envelope holding the content type and the
/// payload bytes.
pub fn reply_to_origin(config: &Config, body: &[u8], headers: &Headers) -> (r: Result<
    OutboundRequest,
    TransportError,
>)
    requires
        body@.len() <= 0x200000,
        encode_utf8(headers.content_type@).len() <= 0x1000,
    ensures
        config.endpoint is None ==> r == Err::<OutboundRequest, TransportError>(
            TransportError::MissingConfig,
        ),
        config.endpoint matches Some(ep) ==> config.mode == Transport::Tcp ==> (
        r matches Ok(OutboundRequest::Tcp { address, frame }) && address@ == ep@ && frame@
            == spec_pack("$reply"@, spec_reply_body(headers.content_type@, body@))),
        config.endpoint matches Some(ep) ==> config.mode == Transport::Http ==> (
        r matches Ok(OutboundRequest::Http { url, content_type: ct, body: b }) && url@ == ep@
            + "/"@ + "$reply"@ && spec_mime_view(ct) == Some(headers.content_type@) && b@
            == body@),
{
    let ep = match &config.endpoint {
        Some(ep) => ep,
        None => {
            return Err(TransportError::MissingConfig);
        },
    };
    match config.mode {
        Transport::Tcp => {
            let json = reply_body(headers.content_type.as_str(), body);
            proof {
                lemma_reply_body_len(headers.content_type@, body@);
                reveal_strlit("$reply");
                lemma_encode_utf8_len("$reply"@);
            }
            let frame = match pack("$reply", json.as_slice()) {
                Ok(f) => f,
                Err(_) => unreached(),
            };
            Ok(OutboundRequest::Tcp { address: ep.clone(), frame })
        },
        Transport::Http => {
            let mut url = ep.clone();
            url.append("/");
            url.append("$reply");
            Ok(
                OutboundRequest::Http {
                    url,
                    content_type: Some(headers.content_type.clone()),
                    body: vstd::slice::slice_to_vec(body),
                },
            )
        },
    }
}

/// Build a reply to the originator of the trace with a plain-text string
/// payload.
pub fn reply_str_to_origin(config: &Config, body: &str) -> (r: Result<
    OutboundRequest,
    TransportError,
>)
    requires
        encode_utf8(body@).len() <= 0x200000,
    ensures
        config.endpoint is None ==> r == Err::<OutboundRequest, TransportError>(
            TransportError::MissingConfig,
        ),
        config.endpoint matches Some(ep) ==> config.mode == Transport::Tcp ==> (
        r matches Ok(OutboundRequest::Tcp { address, frame }) && address@ == ep@ && frame@
            == spec_pack("$reply"@, spec_reply_body("text/plain"@, encode_utf8(body@)))),
        config.endpoint matches Some(ep) ==> config.mode == Transport::Http ==> (
        r matches Ok(OutboundRequest::Http { url, content_type: ct, body: b }) && url@ == ep@
            + "/"@ + "$reply"@ && spec_mime_view(ct) == Some("text/plain"@) && b@ == encode_utf8(
            body@,
        )),
{
    proof {
        reveal_strlit("text/plain");
        lemma_encode_utf8_len("text/plain"@);
    }
    let headers = Headers { content_type: MimeType::txt() };
    let body_bytes = body.as_bytes_vec();
    reply_to_origin(config, body_bytes.as_slice(), &headers)
}

/// Build the join of a broadcast channel: a post of the channel name as
/// plain text to the control event `$join`.
pub fn join_channel(config: &Config, channel: &str) -> (r: Result<
    OutboundRequest,
    TransportError,
>)
    requires
        encode_utf8(channel@).len() < CHUNK_LENGTH_LIMIT,
    ensures
        config.endpoint is None ==> r == Err::<OutboundRequest, TransportError>(
            TransportError::MissingConfig,
        ),
        config.endpoint matches Some(ep) ==> config.mode == Transport::Tcp ==> (
        r matches Ok(OutboundRequest::Tcp { address, frame }) && address@ == ep@ && frame@
            == spec_pack("$join"@, encode_utf8(channel@))),
        config.endpoint matches Some(ep) ==> config.mode == Transport::Http ==> (
        r matches Ok(OutboundRequest::Http { url, content_type: ct, body: b }) && url@ == ep@
            + "/"@ + "$join"@ && spec_mime_view(ct) == Some("text/plain"@) && b@ == encode_utf8(
            channel@,
        )),
{
    proof {
        reveal_strlit("$join");
        lemma_encode_utf8_len("$join"@);
    }
    let channel_bytes = channel.as_bytes_vec();
    post_to_rapids(config, "$join", channel_bytes.as_slice(), Some(MimeType::txt()))
}

/// Build a broadcast to the subscribers of a channel: a post of the JSON
/// body naming channel, event and payload to the control event `$broadcast`.
pub fn broadcast_to_channel(config: &Config, to: &str, event: &str, payload: &str) -> (r: Result<
    OutboundRequest,
    TransportError,
>)
    requires
        encode_utf8(to@).len() <= 0x80000,
        encode_utf8(event@).len() <= 0x80000,
        encode_utf8(payload@).len() <= 0x80000,
    ensures
        config.endpoint is None ==> r == Err::<OutboundRequest, TransportError>(
            TransportError::MissingConfig,
        ),
        config.endpoint matches Some(ep) ==> config.mode == Transport::Tcp ==> (
        r matches Ok(OutboundRequest::Tcp { address, frame }) && address@ == ep@ && frame@
            == spec_pack("$broadcast"@, spec_broadcast_body(to@, event@, payload@))),
        config.endpoint matches Some(ep) ==> config.mode == Transport::Http ==> (
        r matches Ok(OutboundRequest::Http { url, content_type: ct, body: b }) && url@ == ep@
            + "/"@ + "$broadcast"@ && spec_mime_view(ct) == Some("application/json"@) && b@
            == spec_broadcast_body(to@, event@, payload@)),
{
    proof {
        lemma_broadcast_body_len(to@, event@, payload@);
        reveal_strlit("$broadcast");
        lemma_encode_utf8_len("$broadcast"@);
        reveal_strlit("application/json");
        lemma_encode_utf8_len("application/json"@);
    }
    let json = broadcast_body(to, event, payload);
    post_to_rapids(config, "$broadcast", json.as_slice(), Some(MimeType::json()))
}

} // verus!
