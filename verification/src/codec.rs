//! The frame codec: an incremental reader that turns a growing byte buffer
//! into text payloads, and a writer that frames a payload.
//!
//! The reader keeps three things between calls: how far it has already
//! looked for a terminator, the longest line it accepts, and whether it is
//! throwing away the rest of a line that was too long. `decode_spec` says,
//! for every such state and every buffer, what one call does; `decode` is
//! proved to do exactly that.

use crate::buffer::{
    buffer_advance, buffer_bytes, buffer_len, buffer_put, buffer_put_u8, buffer_reserve,
    buffer_slice, buffer_split_to,
};
use crate::framing::{
    be32, be32_value, first_terminator, frame_of, lemma_first_terminator, line_payload,
    strip_carriage_return, CARRIAGE_RETURN, PREFIX_LEN, TERMINATOR,
};
use bytes::BytesMut;
use vstd::prelude::*;
use vstd::slice::slice_subrange;
use vstd::string::StringSliceAdditionalSpecFns;
use vstd::utf8::{decode_utf8, valid_utf8};

verus! {

/// Why a call of the reader failed.
#[derive(Debug, Clone, Copy, PartialEq, Eq, Structural)]
pub enum CodecError {
    /// More bytes than the longest accepted line arrived without a
    /// terminator.
    MaxLineLengthExceeded,
    /// A well-framed payload was not UTF-8.
    InvalidUtf8,
}

/// What the reader remembers between calls.
pub struct CodecState {
    /// The index from which the next search for a terminator starts.
    pub next_index: nat,
    /// The longest line accepted, in bytes, terminator not counted.
    pub max_length: nat,
    /// Whether the rest of an overlong line is being thrown away.
    pub is_discarding: bool,
}

impl CodecState {
    /// The state of a reader that has seen nothing yet.
    pub open spec fn fresh(max_length: nat) -> CodecState {
        CodecState { next_index: 0, max_length, is_discarding: false }
    }

    /// This state with the search starting at the front again.
    pub open spec fn rewound(self) -> CodecState {
        CodecState { next_index: 0, ..self }
    }

    /// The end of the range searched in a buffer of `len` bytes: one byte
    /// more than the longest line, or the whole buffer if that is shorter.
    pub open spec fn window(self, len: nat) -> int {
        if self.max_length + 1 < len {
            self.max_length as int + 1
        } else {
            len as int
        }
    }

    /// Where the search starts in a buffer of `len` bytes: at `next_index`,
    /// or at the end of the range where the buffer is shorter than that.
    pub open spec fn scan_start(self, len: nat) -> int {
        if self.next_index <= self.window(len) {
            self.next_index as int
        } else {
            self.window(len)
        }
    }
}

/// What one call of the reader leaves behind and hands out.
pub struct DecodeOutcome {
    /// The reader's state after the call.
    pub state: CodecState,
    /// The bytes left in the buffer.
    pub remaining: Seq<u8>,
    /// The payload, `None` where more bytes are needed, or the failure.
    pub result: Result<Option<Seq<char>>, CodecError>,
}

/// What the reader does with a line that it has just taken off the buffer.
///
/// `line` is the line without its terminator, `rest` what followed the
/// terminator, `window` the end of the range that was searched. A line of
/// fewer than four bytes is dropped. A line whose last four bytes do not
/// declare the number of bytes before them is damaged: it is dropped, and
/// with it everything else that was searched, up to `window`; a frame that
/// shared the searched range with it is lost. Otherwise the bytes before the
/// prefix, without a closing carriage return, are the payload, which must be
/// UTF-8.
pub open spec fn line_outcome(state: CodecState, line: Seq<u8>, rest: Seq<u8>, window: int)
    -> DecodeOutcome {
    match line_payload(line) {
        Some(content) => {
            let text = strip_carriage_return(content);
            DecodeOutcome {
                state: state.rewound(),
                remaining: rest,
                result: if valid_utf8(text) {
                    Ok(Some(decode_utf8(text)))
                } else {
                    Err(CodecError::InvalidUtf8)
                },
            }
        },
        None => DecodeOutcome {
            state: state.rewound(),
            remaining: if line.len() >= 4 {
                rest.skip(window - line.len() - 1)
            } else {
                rest
            },
            result: Ok(None),
        },
    }
}

/// What one call of the reader does, given its state and the buffer.
///
/// While not discarding: a terminator in the searched range ends a line,
/// which `line_outcome` judges; without one, a buffer longer than the longest
/// line is an error and starts the discarding, and a shorter one asks for
/// more bytes and remembers how far it was searched.
///
/// While discarding: everything up to and including the next terminator is
/// dropped and reading goes on as usual behind it; without a terminator the
/// searched range is dropped, and the discarding goes on with what is left.
pub open spec fn decode_spec(state: CodecState, bytes: Seq<u8>) -> DecodeOutcome
    decreases bytes.len(),
{
    let window = state.window(bytes.len());
    let start = state.scan_start(bytes.len());
    let found = first_terminator(bytes, start, window);
    if state.is_discarding {
        match found {
            Some(at) => {
                proof {
                    lemma_first_terminator(bytes, start, window);
                }
                decode_spec(CodecState::fresh(state.max_length), bytes.skip(at + 1))
            },
            None => {
                let rest = bytes.skip(window);
                if rest.len() > 0 {
                    decode_spec(state.rewound(), rest)
                } else {
                    DecodeOutcome { state: state.rewound(), remaining: rest, result: Ok(None) }
                }
            },
        }
    } else {
        match found {
            Some(at) => line_outcome(state, bytes.take(at), bytes.skip(at + 1), window),
            None => {
                if bytes.len() > state.max_length {
                    DecodeOutcome {
                        state: CodecState { is_discarding: true, ..state },
                        remaining: bytes,
                        result: Err(CodecError::MaxLineLengthExceeded),
                    }
                } else {
                    DecodeOutcome {
                        state: CodecState { next_index: window as nat, ..state },
                        remaining: bytes,
                        result: Ok(None),
                    }
                }
            },
        }
    }
}

/// A result of `decode` with each string taken by its characters.
pub open spec fn decoded_view(res: Result<Option<String>, CodecError>) -> Result<
    Option<Seq<char>>,
    CodecError,
> {
    match res {
        Ok(Some(text)) => Ok(Some(text@)),
        Ok(None) => Ok(None),
        Err(e) => Err(e),
    }
}

/// `std::str::from_utf8`: the bytes as text where they are UTF-8, nothing
/// where they are not. The text it hands out is made of the very bytes it
/// was given.
#[verifier::external_body]
fn str_from_utf8(buf: &[u8]) -> (text: Option<&str>)
    ensures
        text is Some <==> valid_utf8(buf@),
        text matches Some(s) ==> s.spec_bytes() == buf@,
{
    std::str::from_utf8(buf).ok()
}

/// Reads `buf` as UTF-8 text.
pub fn utf8(buf: &[u8]) -> (res: Result<&str, CodecError>)
    ensures
        match res {
            Ok(text) => valid_utf8(buf@) && text@ == decode_utf8(buf@),
            Err(e) => !valid_utf8(buf@) && e == CodecError::InvalidUtf8,
        },
{
    match str_from_utf8(buf) {
        Some(text) => {
            proof {
                vstd::utf8::encode_utf8_decode_utf8(text@);
            }
            Ok(text)
        },
        None => Err(CodecError::InvalidUtf8),
    }
}

/// `s` without the carriage return that ends it, if one does.
pub fn without_carriage_return(s: &[u8]) -> (res: &[u8])
    ensures
        res@ == strip_carriage_return(s@),
{
    let n = s.len();
    if n > 0 && s[n - 1] == CARRIAGE_RETURN {
        slice_subrange(s, 0, n - 1)
    } else {
        s
    }
}

/// The number that the four bytes of `prefix` stand for, most significant
/// byte first.
fn read_be32(prefix: &[u8]) -> (n: u32)
    requires
        prefix@.len() == 4,
    ensures
        n == be32_value(prefix@),
{
    let b0: u32 = prefix[0] as u32;
    let b1: u32 = prefix[1] as u32;
    let b2: u32 = prefix[2] as u32;
    let b3: u32 = prefix[3] as u32;
    b0 * 0x100_0000 + b1 * 0x1_0000 + b2 * 0x100 + b3
}

/// The four bytes that stand for `n`, most significant byte first.
fn write_be32(n: u32) -> (bytes: [u8; 4])
    ensures
        bytes@ == be32(n),
{
    let bytes: [u8; 4] = [
        (n / 0x100_0000) as u8,
        (n / 0x1_0000 % 0x100) as u8,
        (n / 0x100 % 0x100) as u8,
        (n % 0x100) as u8,
    ];
    bytes
}

/// The first terminator of `bytes` in `from..to`.
fn find_terminator(bytes: &[u8], from: usize, to: usize) -> (found: Option<usize>)
    requires
        from <= to <= bytes@.len(),
    ensures
        match found {
            Some(at) => first_terminator(bytes@, from as int, to as int) == Some(at as int),
            None => first_terminator(bytes@, from as int, to as int) is None,
        },
{
    let mut i: usize = from;
    while i < to
        invariant
            from <= i <= to <= bytes@.len(),
            first_terminator(bytes@, from as int, to as int) == first_terminator(
                bytes@,
                i as int,
                to as int,
            ),
        decreases to - i,
    {
        if bytes[i] == TERMINATOR {
            return Some(i);
        }
        i += 1;
    }
    None
}

/// The incremental reader and the writer of frames.
pub struct EventLinesCodec {
    // The next index to examine for a terminator. After a call that saw
    // `abc` it is 3; the next call, given `abcde\n`, looks at `de\n` only.
    next_index: usize,
    // The longest line accepted. With `usize::MAX`, a line is read until its
    // terminator however long it is.
    max_length: usize,
    // Whether the rest of a line over the limit is being thrown away.
    is_discarding: bool,
}

impl View for EventLinesCodec {
    type V = CodecState;

    closed spec fn view(&self) -> CodecState {
        CodecState {
            next_index: self.next_index as nat,
            max_length: self.max_length as nat,
            is_discarding: self.is_discarding,
        }
    }
}

impl EventLinesCodec {
    /// A codec that accepts lines of any length.
    pub fn new() -> (codec: EventLinesCodec)
        ensures
            codec@ == CodecState::fresh(usize::MAX as nat),
    {
        EventLinesCodec { next_index: 0, max_length: usize::MAX, is_discarding: false }
    }

    /// A codec that accepts lines of up to `max_length` bytes, terminator not
    /// counted, and answers a longer one with
    /// `CodecError::MaxLineLengthExceeded`.
    pub fn new_with_max_length(max_length: usize) -> (codec: EventLinesCodec)
        ensures
            codec@ == CodecState::fresh(max_length as nat),
    {
        EventLinesCodec { next_index: 0, max_length, is_discarding: false }
    }

    /// The longest line that this codec accepts.
    pub fn max_length(&self) -> (n: usize)
        ensures
            n == self@.max_length,
    {
        self.max_length
    }

    /// Takes the next payload off the front of `buf`, if a whole frame is
    /// there.
    ///
    /// `Ok(None)` asks for more bytes; it is also the answer after a damaged
    /// frame was dropped. What is left in `buf`, what the codec remembers and
    /// what is returned are those of `decode_spec`.
    pub fn decode(&mut self, buf: &mut BytesMut) -> (res: Result<Option<String>, CodecError>)
        ensures
            decode_spec(old(self)@, buffer_bytes(*old(buf))) == (DecodeOutcome {
                state: final(self)@,
                remaining: buffer_bytes(*final(buf)),
                result: decoded_view(res),
            }),
    {
        let ghost goal = decode_spec(self@, buffer_bytes(*buf));
        loop
            invariant
                goal == decode_spec(old(self)@, buffer_bytes(*old(buf))),
                decode_spec(self@, buffer_bytes(*buf)) == goal,
            decreases buffer_bytes(*buf).len(),
        {
            let ghost bytes = buffer_bytes(*buf);
            let len = buffer_len(buf);
            // How far into the buffer to search for a terminator: to its end
            // where no limit is set.
            let limit = self.max_length.saturating_add(1);
            let read_to = if limit < len {
                limit
            } else {
                len
            };
            let start = if self.next_index <= read_to {
                self.next_index
            } else {
                read_to
            };
            let found = find_terminator(buffer_slice(buf), start, read_to);
            proof {
                lemma_first_terminator(bytes, start as int, read_to as int);
            }
            if self.is_discarding {
                match found {
                    Some(at) => {
                        // Drop everything up to the terminator and stop
                        // discarding: the next round reads a line as usual.
                        buffer_advance(buf, at + 1);
                        self.is_discarding = false;
                        self.next_index = 0;
                    },
                    None => {
                        // Drop what was searched: the next round goes on
                        // discarding unless a terminator turns up.
                        buffer_advance(buf, read_to);
                        self.next_index = 0;
                        if buffer_len(buf) == 0 {
                            return Ok(None);
                        }
                    },
                }
            } else {
                match found {
                    Some(at) => {
                        self.next_index = 0;
                        let line_buf = buffer_split_to(buf, at + 1);
                        let framed = buffer_slice(&line_buf);
                        let line = slice_subrange(framed, 0, at);
                        assert(line@ =~= bytes.take(at as int));
                        if line.len() < PREFIX_LEN {
                            return Ok(None);
                        }
                        let content = slice_subrange(line, 0, line.len() - PREFIX_LEN);
                        let prefix = slice_subrange(line, line.len() - PREFIX_LEN, line.len());
                        let declared = read_be32(prefix) as usize;
                        if declared != content.len() {
                            // The frame is damaged. It is gone already; the
                            // rest of the searched range goes with it.
                            buffer_advance(buf, read_to - (at + 1));
                            return Ok(None);
                        }
                        let text = without_carriage_return(content);
                        return match utf8(text) {
                            Ok(s) => Ok(Some(s.to_owned())),
                            Err(e) => Err(e),
                        };
                    },
                    None => {
                        if len > self.max_length {
                            // The limit is reached without a terminator: an
                            // error now, and discarding from the next call on.
                            self.is_discarding = true;
                            return Err(CodecError::MaxLineLengthExceeded);
                        }
                        // Neither a line nor the limit: the next call goes on
                        // searching where this one stopped.
                        self.next_index = read_to;
                        return Ok(None);
                    },
                }
            }
        }
    }

    /// Appends the frame that carries `line` to `buf`.
    ///
    /// The buffer must be able to grow by the frame: the payload and five
    /// bytes more.
    pub fn encode(&mut self, line: &str, buf: &mut BytesMut) -> (res: Result<(), CodecError>)
        requires
            buffer_bytes(*old(buf)).len() + line.spec_bytes().len() + 5 <= isize::MAX,
        ensures
            res is Ok,
            buffer_bytes(*final(buf)) == buffer_bytes(*old(buf)) + frame_of(line.spec_bytes()),
            final(self)@ == old(self)@,
    {
        let payload = line.as_bytes();
        buffer_reserve(buf, payload.len() + 1);
        buffer_put(buf, payload);
        // The length prefix, most significant byte first.
        let declared: u32 = (payload.len() as u64 % 0x1_0000_0000) as u32;
        let len_prefix = write_be32(declared);
        buffer_put(buf, len_prefix.as_slice());
        buffer_put_u8(buf, TERMINATOR);
        Ok(())
    }

    /// Appends the frame that carries `line` to `buf` where the buffer can
    /// grow by that much, and leaves the buffer as it is where it cannot.
    pub fn try_encode(&mut self, line: &str, buf: &mut BytesMut) -> (res: Option<()>)
        ensures
            res is Some <==> buffer_bytes(*old(buf)).len() + line.spec_bytes().len() + 5
                <= isize::MAX,
            res is Some ==> buffer_bytes(*final(buf)) == buffer_bytes(*old(buf)) + frame_of(
                line.spec_bytes(),
            ),
            res is None ==> buffer_bytes(*final(buf)) == buffer_bytes(*old(buf)),
            final(self)@ == old(self)@,
    {
        let limit: usize = isize::MAX as usize;
        let held = buffer_len(buf);
        let wanted = line.as_bytes().len();
        if held <= limit && wanted <= limit - held && 5 <= limit - held - wanted {
            let _ = self.encode(line, buf);
            Some(())
        } else {
            None
        }
    }
}

} // verus!
