//! Framed duplex messaging between a desktop front-end and its background
//! service: the wire codec, the reconnect schedule, the listener's decisions
//! and the typed command and notification envelopes.
//!
//! Nothing here reads or writes a socket. The caller owns the channel and
//! the clock, and hands this library what a read, a write or an attempt to
//! connect gave; the library says what that amounts to and what comes next.

pub mod buffer;
pub mod channel;
pub mod codec;
pub mod codec_proofs;
pub mod commands;
pub mod connection;
pub mod error;
pub mod event;
pub mod framing;
pub mod handler;
pub mod json;
pub mod listener;
pub mod log_reader;
pub mod text;

pub use codec::{utf8, without_carriage_return, CodecError, EventLinesCodec};
pub use commands::handle_string_param;
pub use event::{CommandEvent, CommandType, EventParser, EventType, NotificationEvent};
pub use listener::ConnectionHandler;
pub use log_reader::LogResponse;
