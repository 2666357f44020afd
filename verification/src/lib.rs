//! Client-side runtime for short-lived action handlers driven by the
//! Merrymake message queue (Rapids).
//!
//! The library covers the protocol core: the length-prefixed chunk framing
//! used on the TCP transport, the envelope model that identifies each
//! delivery, the dual-mode transport selection, the construction of outbound
//! messages (events, replies, channel join/broadcast), and the dispatch of an
//! inbound invocation to a registered handler.  All I/O stays with the host
//! application, which hands this library plain bytes and strings and sends
//! what it prepares.

pub mod dispatch;
pub mod envelope;
pub mod framing;
pub mod json_body;
pub mod merrymake;

pub use dispatch::DispatchError;
pub use dispatch::Handler;
pub use envelope::Envelope;
pub use envelope::ParseError;
pub use framing::get_args;
pub use framing::FrameError;
pub use merrymake::broadcast_to_channel;
pub use merrymake::join_channel;
pub use merrymake::post_event_to_rapids;
pub use merrymake::post_str_to_rapids;
pub use merrymake::post_to_rapids;
pub use merrymake::reply_str_to_origin;
pub use merrymake::reply_to_origin;
pub use merrymake::select_transport;
pub use merrymake::Config;
pub use merrymake::Headers;
pub use merrymake::MimeType;
pub use merrymake::OutboundRequest;
pub use merrymake::Transport;
pub use merrymake::TransportError;
