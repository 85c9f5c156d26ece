//! What a read or a write on the channel amounts to.
//!
//! The two halves of the channel are shared behind locks by whoever drives
//! them. This module judges what an operation gave: which outcomes of a timed
//! read are a line, which are "nothing yet", and how a failure is reported.

use crate::error::{wrapped_message, IoError};
use crate::text::opt_text;
use vstd::prelude::*;

verus! {

/// What a failed write is reported as.
pub const SEND_FAILED: &'static str = "Failed to send line";

/// What a failed read is reported as.
pub const READ_FAILED: &'static str = "Failed to read line";

/// What a failed liveness probe is reported as.
pub const PING_FAILED: &'static str = "Failed to send ping";

/// The liveness probe: the text that is sent when nothing arrived in time.
pub const PING: &'static str = "{\"command\": \"ping\"}";

/// What one read with a timeout gave.
#[derive(Debug, Clone)]
pub enum ReadOutcome {
    /// A frame arrived and was decoded.
    Line(String),
    /// The time ran out first.
    TimedOut,
    /// The stream has ended.
    Closed,
    /// The read or the decoding failed; the reason is kept in words.
    Failed(String),
}

/// The result of a read, as mathematics: a line, nothing, or the message of
/// the failure.
pub open spec fn read_view(res: Result<Option<String>, IoError>) -> Result<
    Option<Seq<char>>,
    Seq<char>,
> {
    match res {
        Ok(line) => Ok(opt_text(line)),
        Err(e) => Err(e.message@),
    }
}

/// The result of a write, as mathematics: done, or the message of the
/// failure.
pub open spec fn write_view(res: Result<(), IoError>) -> Result<(), Seq<char>> {
    match res {
        Ok(()) => Ok(()),
        Err(e) => Err(e.message@),
    }
}

/// What a timed read amounts to: a line, or `None` when the time ran out or
/// the stream has ended, which is no error, or the failure.
pub fn read_line(outcome: ReadOutcome) -> (res: Result<Option<String>, IoError>)
    ensures
        read_view(res) == match outcome {
            ReadOutcome::Line(line) => Ok(Some(line@)),
            ReadOutcome::TimedOut => Ok(None),
            ReadOutcome::Closed => Ok(None),
            ReadOutcome::Failed(cause) => Err(wrapped_message(READ_FAILED@, cause@)),
        },
{
    match outcome {
        ReadOutcome::Line(line) => Ok(Some(line)),
        ReadOutcome::TimedOut => Ok(None),
        ReadOutcome::Closed => Ok(None),
        ReadOutcome::Failed(cause) => Err(IoError::wrap(READ_FAILED, cause.as_str())),
    }
}

/// What a write amounts to: done, or the failure. Nothing is tried again.
pub fn send(outcome: Result<(), String>) -> (res: Result<(), IoError>)
    ensures
        write_view(res) == match outcome {
            Ok(()) => Ok(()),
            Err(cause) => Err(wrapped_message(SEND_FAILED@, cause@)),
        },
{
    match outcome {
        Ok(()) => Ok(()),
        Err(cause) => Err(IoError::wrap(SEND_FAILED, cause.as_str())),
    }
}

/// What sending the liveness probe amounts to, given what the write gave.
pub fn ping(sent: Result<(), IoError>) -> (res: Result<(), IoError>)
    ensures
        write_view(res) == match sent {
            Ok(()) => Ok(()),
            Err(e) => Err(wrapped_message(PING_FAILED@, e.message@)),
        },
{
    match sent {
        Ok(()) => Ok(()),
        Err(e) => Err(IoError::wrap(PING_FAILED, e.message.as_str())),
    }
}

} // verus!
