//! What holds of the reader and the writer together, for every payload and
//! every buffer: proved here from `decode_spec` and `frame_of`, which the
//! contracts of `decode` and `encode` are stated in.

use crate::codec::{decode_spec, CodecError, CodecState, DecodeOutcome};
use crate::framing::{
    be32, be32_value, declared_length, first_terminator, frame_of, lemma_be32_value,
    lemma_first_terminator, lemma_first_terminator_at, line_payload, no_terminator,
    strip_carriage_return, CARRIAGE_RETURN, TERMINATOR,
};
use vstd::prelude::*;
use vstd::utf8::{
    decode_utf8, decode_utf8_encode_utf8, encode_utf8, encode_utf8_decode_utf8,
    encode_utf8_valid_utf8,
};

verus! {

/// The payloads that come out of a reader as they went into the writer, when
/// the reader accepts lines of up to `max_length` bytes.
///
/// A payload is read back unchanged exactly when no terminator cuts its frame
/// short, its length fits the prefix, no carriage return at its end is
/// mistaken for a line ending, and the line is within the limit.
pub open spec fn survives_framing(payload: Seq<u8>, max_length: nat) -> bool {
    &&& no_terminator(payload, 0, payload.len() as int)
    &&& no_terminator(be32(declared_length(payload.len())), 0, 4)
    &&& payload.len() < 0x1_0000_0000
    &&& !(payload.len() > 0 && payload.last() == CARRIAGE_RETURN)
    &&& payload.len() + 4 <= max_length
}

/// A line that is damaged: its last four bytes, `prefix`, do not declare the
/// length of `content`. Neither part holds a terminator, so that the reader
/// sees the line as one, and the line is within the limit.
pub open spec fn is_damaged_line(content: Seq<u8>, prefix: Seq<u8>, max_length: nat) -> bool {
    &&& prefix.len() == 4
    &&& be32_value(prefix) != content.len()
    &&& no_terminator(content, 0, content.len() as int)
    &&& no_terminator(prefix, 0, 4)
    &&& content.len() + 4 <= max_length
}

/// A reader that is not discarding and has searched no further than the end
/// of the line takes a whole frame off the front of the buffer and hands out
/// its payload, whatever follows the frame.
pub proof fn lemma_frame_at_front(state: CodecState, text: Seq<char>, rest: Seq<u8>)
    requires
        !state.is_discarding,
        survives_framing(encode_utf8(text), state.max_length),
        state.next_index <= encode_utf8(text).len() + 4,
    ensures
        decode_spec(state, frame_of(encode_utf8(text)) + rest) == (DecodeOutcome {
            state: state.rewound(),
            remaining: rest,
            result: Ok(Some(text)),
        }),
{
    let payload = encode_utf8(text);
    let n = payload.len() as int;
    let prefix = be32(declared_length(payload.len()));
    let frame = frame_of(payload);
    let bytes = frame + rest;
    let window = state.window(bytes.len());
    let start = state.scan_start(bytes.len());
    lemma_be32_value(declared_length(payload.len()));
    // The frame's own terminator is the first one: neither the payload nor
    // the prefix holds any.
    assert(no_terminator(bytes, 0, n + 4));
    lemma_first_terminator_at(bytes, start, window, n + 4);
    // The line is the payload and its prefix, and the prefix matches.
    assert(line_payload(bytes.take(n + 4)) == Some(payload));
    encode_utf8_valid_utf8(text);
    encode_utf8_decode_utf8(text);
    assert(bytes.skip(n + 5) =~= rest);
}

/// Round trip: what the writer framed, a reader that has seen nothing yet
/// reads back unchanged, and leaves in the buffer what followed the frame.
pub proof fn lemma_round_trip(text: Seq<char>, max_length: nat, rest: Seq<u8>)
    requires
        survives_framing(encode_utf8(text), max_length),
    ensures
        decode_spec(CodecState::fresh(max_length), frame_of(encode_utf8(text)) + rest) == (
        DecodeOutcome {
            state: CodecState::fresh(max_length),
            remaining: rest,
            result: Ok(Some(text)),
        }),
{
    lemma_frame_at_front(CodecState::fresh(max_length), text, rest);
}

/// Nothing else survives: a payload that a reader which has seen nothing yet
/// reads back from its frame is one of those that `survives_framing` names.
pub proof fn lemma_round_trip_only_if(text: Seq<char>, max_length: nat, rest: Seq<u8>)
    requires
        decode_spec(CodecState::fresh(max_length), frame_of(encode_utf8(text)) + rest).result
            == Ok::<Option<Seq<char>>, CodecError>(Some(text)),
    ensures
        survives_framing(encode_utf8(text), max_length),
{
    let payload = encode_utf8(text);
    let n = payload.len() as int;
    let prefix = be32(declared_length(payload.len()));
    let bytes = frame_of(payload) + rest;
    let fresh = CodecState::fresh(max_length);
    let window = fresh.window(bytes.len());
    lemma_first_terminator(bytes, 0, window);
    lemma_be32_value(declared_length(payload.len()));
    let at = first_terminator(bytes, 0, window)->0;
    let line = bytes.take(at);
    let content = line_payload(line)->0;
    let read = strip_carriage_return(content);
    // What was read is the payload itself: the line is as long as the frame,
    // so the frame's own terminator is the first one, and nothing was trimmed.
    decode_utf8_encode_utf8(read);
    assert(no_terminator(payload, 0, n));
    assert(no_terminator(prefix, 0, 4));
}

/// An empty buffer yields nothing and changes nothing, as long as the reader
/// is not discarding.
pub proof fn lemma_empty_buffer(state: CodecState)
    requires
        !state.is_discarding,
    ensures
        decode_spec(state, Seq::empty()) == (DecodeOutcome {
            state: state.rewound(),
            remaining: Seq::empty(),
            result: Ok(None),
        }),
{
}

/// Partial delivery: a frame that arrives in two pieces, cut anywhere, yields
/// nothing while its last byte is missing and keeps every byte; once the rest
/// is there it yields the payload, once, and leaves the buffer empty.
pub proof fn lemma_partial_delivery(text: Seq<char>, max_length: nat, cut: int)
    requires
        survives_framing(encode_utf8(text), max_length),
        0 <= cut < frame_of(encode_utf8(text)).len(),
    ensures
        ({
            let frame = frame_of(encode_utf8(text));
            let first = decode_spec(CodecState::fresh(max_length), frame.take(cut));
            let second = decode_spec(first.state, first.remaining + frame.skip(cut));
            let third = decode_spec(second.state, second.remaining);
            &&& first.result == Ok::<Option<Seq<char>>, CodecError>(None)
            &&& first.remaining == frame.take(cut)
            &&& second.result == Ok::<Option<Seq<char>>, CodecError>(Some(text))
            &&& second.remaining == Seq::<u8>::empty()
            &&& second.state == CodecState::fresh(max_length)
            &&& third.result == Ok::<Option<Seq<char>>, CodecError>(None)
        }),
{
    let payload = encode_utf8(text);
    let frame = frame_of(payload);
    let fresh = CodecState::fresh(max_length);
    let head = frame.take(cut);
    assert(no_terminator(head, 0, cut));
    lemma_first_terminator(head, 0, fresh.window(head.len()));
    let first = decode_spec(fresh, head);
    assert(head + frame.skip(cut) =~= frame + Seq::<u8>::empty());
    lemma_frame_at_front(first.state, text, Seq::empty());
    lemma_empty_buffer(fresh);
}

/// The line of `bytes` that starts at `from` and ends with the terminator at
/// `to` is well framed and carries `text`: its last four bytes declare the
/// number of bytes before them, and those, without a closing carriage return,
/// are `text` in UTF-8.
pub open spec fn line_carries(bytes: Seq<u8>, from: int, to: int, text: Seq<char>) -> bool {
    let line = bytes.subrange(from, to);
    &&& 0 <= from <= to < bytes.len()
    &&& bytes[to] == TERMINATOR
    &&& line_payload(line) is Some
    &&& text == decode_utf8(strip_carriage_return(line_payload(line)->0))
}

/// Whatever the reader hands out was framed: the payload is the content of a
/// line of the buffer whose last four bytes declare the content's length, and
/// what is left in the buffer is what followed that line. So a line whose
/// prefix does not match is never handed out.
pub proof fn lemma_payload_was_framed(state: CodecState, bytes: Seq<u8>, text: Seq<char>)
    requires
        decode_spec(state, bytes).result == Ok::<Option<Seq<char>>, CodecError>(Some(text)),
    ensures
        exists|from: int, to: int| #[trigger]
            line_carries(bytes, from, to, text) && decode_spec(state, bytes).remaining
                == bytes.skip(to + 1),
    decreases bytes.len(),
{
    let window = state.window(bytes.len());
    let start = state.scan_start(bytes.len());
    let found = first_terminator(bytes, start, window);
    lemma_first_terminator(bytes, start, window);
    if state.is_discarding {
        let (next, rest, dropped) = match found {
            Some(at) => (CodecState::fresh(state.max_length), bytes.skip(at + 1), at + 1),
            None => (state.rewound(), bytes.skip(window), window),
        };
        lemma_payload_was_framed(next, rest, text);
        let (from, to) = choose|from: int, to: int| #[trigger]
            line_carries(rest, from, to, text) && decode_spec(next, rest).remaining == rest.skip(
                to + 1,
            );
        assert(rest.subrange(from, to) =~= bytes.subrange(from + dropped, to + dropped));
        assert(line_carries(bytes, from + dropped, to + dropped, text));
    } else {
        let at = found->0;
        assert(line_carries(bytes, 0, at, text));
    }
}

/// A damaged line at the front of the buffer takes the searched range with
/// it: the reader hands out nothing and keeps only what lies beyond that
/// range, whatever followed the line, and searches from the front again.
pub proof fn lemma_damaged_line_takes_range(
    state: CodecState,
    content: Seq<u8>,
    prefix: Seq<u8>,
    rest: Seq<u8>,
)
    requires
        !state.is_discarding,
        state.next_index <= content.len() + 4,
        is_damaged_line(content, prefix, state.max_length),
    ensures
        ({
            let bytes = content + prefix + seq![TERMINATOR] + rest;
            decode_spec(state, bytes) == DecodeOutcome {
                state: state.rewound(),
                remaining: bytes.skip(state.window(bytes.len())),
                result: Ok(None),
            }
        }),
{
    let bytes = content + prefix + seq![TERMINATOR] + rest;
    let n = content.len() as int;
    let window = state.window(bytes.len());
    assert(no_terminator(bytes, 0, n + 4));
    lemma_first_terminator_at(bytes, state.scan_start(bytes.len()), window, n + 4);
    let line = bytes.take(n + 4);
    assert(line.skip(line.len() - 4) =~= prefix);
    assert(bytes.skip(n + 5).skip(window - n - 5) =~= bytes.skip(window));
}

/// A damaged line is dropped: the reader hands out nothing, keeps nothing of
/// the line, and is as if it had seen nothing yet. A well-formed frame that
/// arrives after it is read as usual.
pub proof fn lemma_damaged_line_dropped(
    content: Seq<u8>,
    prefix: Seq<u8>,
    max_length: nat,
    text: Seq<char>,
)
    requires
        is_damaged_line(content, prefix, max_length),
        survives_framing(encode_utf8(text), max_length),
    ensures
        ({
            let damaged = content + prefix + seq![TERMINATOR];
            let first = decode_spec(CodecState::fresh(max_length), damaged);
            let second = decode_spec(first.state, first.remaining + frame_of(encode_utf8(text)));
            &&& first == DecodeOutcome {
                state: CodecState::fresh(max_length),
                remaining: Seq::<u8>::empty(),
                result: Ok(None),
            }
            &&& second == DecodeOutcome {
                state: CodecState::fresh(max_length),
                remaining: Seq::<u8>::empty(),
                result: Ok(Some(text)),
            }
        }),
{
    let fresh = CodecState::fresh(max_length);
    let damaged = content + prefix + seq![TERMINATOR];
    let n = content.len() as int;
    let window = fresh.window(damaged.len());
    assert(no_terminator(damaged, 0, n + 4));
    lemma_first_terminator_at(damaged, 0, window, n + 4);
    let first = decode_spec(fresh, damaged);
    assert(first.remaining =~= Seq::<u8>::empty());
    assert(first.remaining + frame_of(encode_utf8(text)) =~= frame_of(encode_utf8(text))
        + Seq::<u8>::empty());
    lemma_frame_at_front(fresh, text, Seq::empty());
}

/// Oversized line: more bytes than the limit without a terminator among them
/// are an error on that call. The buffer is left as it is, and the reader
/// starts discarding.
pub proof fn lemma_oversized_line(state: CodecState, bytes: Seq<u8>)
    requires
        !state.is_discarding,
        bytes.len() > state.max_length,
        no_terminator(bytes, 0, bytes.len() as int),
    ensures
        decode_spec(state, bytes) == (DecodeOutcome {
            state: CodecState { is_discarding: true, ..state },
            remaining: bytes,
            result: Err(CodecError::MaxLineLengthExceeded),
        }),
{
    lemma_first_terminator(bytes, state.scan_start(bytes.len()), state.window(bytes.len()));
}

/// A discarding reader drops everything through the next terminator and then
/// reads on as one that has seen nothing yet: `junk` is what arrived of the
/// overlong line, `rest` what follows its terminator.
pub proof fn lemma_discards_through_terminator(state: CodecState, junk: Seq<u8>, rest: Seq<u8>)
    requires
        state.is_discarding,
        state.next_index <= junk.len(),
        no_terminator(junk, 0, junk.len() as int),
    ensures
        decode_spec(state, junk + seq![TERMINATOR] + rest) == decode_spec(
            CodecState::fresh(state.max_length),
            rest,
        ),
    decreases junk.len(),
{
    let bytes = junk + seq![TERMINATOR] + rest;
    let window = state.window(bytes.len());
    let start = state.scan_start(bytes.len());
    let j = junk.len() as int;
    assert(no_terminator(bytes, 0, j));
    if j < window {
        lemma_first_terminator_at(bytes, start, window, j);
        assert(bytes.skip(j + 1) =~= rest);
    } else {
        lemma_first_terminator(bytes, start, window);
        let left = junk.skip(window);
        assert(bytes.skip(window) =~= left + seq![TERMINATOR] + rest);
        lemma_discards_through_terminator(state.rewound(), left, rest);
    }
}

/// After an oversized line was refused, whatever more of it arrives is thrown
/// away with it: once its terminator is there, the call reads what follows as
/// a reader would that has seen nothing yet.
pub proof fn lemma_recovers_after_oversized_line(
    state: CodecState,
    bytes: Seq<u8>,
    more: Seq<u8>,
    rest: Seq<u8>,
)
    requires
        !state.is_discarding,
        state.next_index <= bytes.len(),
        bytes.len() > state.max_length,
        no_terminator(bytes, 0, bytes.len() as int),
        no_terminator(more, 0, more.len() as int),
    ensures
        ({
            let refused = decode_spec(state, bytes);
            &&& refused.result == Err::<Option<Seq<char>>, CodecError>(
                CodecError::MaxLineLengthExceeded,
            )
            &&& decode_spec(refused.state, refused.remaining + more + seq![TERMINATOR] + rest)
                == decode_spec(CodecState::fresh(state.max_length), rest)
        }),
{
    lemma_oversized_line(state, bytes);
    let junk = bytes + more;
    assert(no_terminator(junk, 0, junk.len() as int));
    lemma_discards_through_terminator(CodecState { is_discarding: true, ..state }, junk, rest);
}

} // verus!
