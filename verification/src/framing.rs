//! The wire format, as mathematics.
//!
//! A frame is the payload, then the payload's length as four bytes, most
//! significant first, then a line feed. A carriage return that ends the
//! payload is trimmed by the reader and is not part of what it hands out.

use vstd::prelude::*;

verus! {

/// The line feed that ends every frame.
pub const TERMINATOR: u8 = 0x0A;

/// The carriage return that is trimmed when it ends a payload.
pub const CARRIAGE_RETURN: u8 = 0x0D;

/// The number of bytes of the length prefix.
pub const PREFIX_LEN: usize = 4;

/// The four bytes that stand for `n`, most significant first.
pub open spec fn be32(n: u32) -> Seq<u8> {
    seq![
        (n / 0x100_0000) as u8,
        (n / 0x1_0000 % 0x100) as u8,
        (n / 0x100 % 0x100) as u8,
        (n % 0x100) as u8,
    ]
}

/// The number that four bytes stand for, most significant first.
pub open spec fn be32_value(bytes: Seq<u8>) -> int
    recommends
        bytes.len() == 4,
{
    bytes[0] as int * 0x100_0000 + bytes[1] as int * 0x1_0000 + bytes[2] as int * 0x100
        + bytes[3] as int
}

/// The length that a frame declares for a payload of `len` bytes: the length
/// itself while it fits in 32 bits, its low 32 bits beyond that.
pub open spec fn declared_length(len: nat) -> u32 {
    (len % 0x1_0000_0000) as u32
}

/// The frame that carries `payload`.
pub open spec fn frame_of(payload: Seq<u8>) -> Seq<u8> {
    payload + be32(declared_length(payload.len())) + seq![TERMINATOR]
}

/// `content` without the carriage return that ends it, if one does.
pub open spec fn strip_carriage_return(content: Seq<u8>) -> Seq<u8> {
    if content.len() > 0 && content.last() == CARRIAGE_RETURN {
        content.drop_last()
    } else {
        content
    }
}

/// The payload that a line (a frame without its terminator) carries: the
/// bytes before the last four, when those four declare their number.
pub open spec fn line_payload(line: Seq<u8>) -> Option<Seq<u8>> {
    if line.len() >= 4 && be32_value(line.skip(line.len() - 4)) == line.len() - 4 {
        Some(line.take(line.len() - 4))
    } else {
        None
    }
}

/// The first index in `from..to` at which `bytes` holds a terminator.
pub open spec fn first_terminator(bytes: Seq<u8>, from: int, to: int) -> Option<int>
    decreases to - from,
{
    if from >= to {
        None
    } else if bytes[from] == TERMINATOR {
        Some(from)
    } else {
        first_terminator(bytes, from + 1, to)
    }
}

/// No byte of `bytes` in `from..to` is a terminator.
pub open spec fn no_terminator(bytes: Seq<u8>, from: int, to: int) -> bool {
    forall|i: int| from <= i < to ==> bytes[i] != TERMINATOR
}

/// Reading back what `be32` wrote gives the number again.
pub proof fn lemma_be32_value(n: u32)
    ensures
        be32(n).len() == 4,
        be32_value(be32(n)) == n,
{
}

/// `first_terminator` finds nothing exactly when the range holds no
/// terminator, and what it finds is the first one.
pub proof fn lemma_first_terminator(bytes: Seq<u8>, from: int, to: int)
    ensures
        first_terminator(bytes, from, to) is None <==> no_terminator(bytes, from, to),
        first_terminator(bytes, from, to) matches Some(i) ==> from <= i < to && bytes[i]
            == TERMINATOR && no_terminator(bytes, from, i),
    decreases to - from,
{
    if from < to && bytes[from] != TERMINATOR {
        lemma_first_terminator(bytes, from + 1, to);
    }
}

/// A terminator at `at` with none before it in the range is what
/// `first_terminator` finds.
pub proof fn lemma_first_terminator_at(bytes: Seq<u8>, from: int, to: int, at: int)
    requires
        from <= at < to,
        bytes[at] == TERMINATOR,
        no_terminator(bytes, from, at),
    ensures
        first_terminator(bytes, from, to) == Some(at),
    decreases at - from,
{
    if from < at {
        lemma_first_terminator_at(bytes, from + 1, to, at);
    }
}

} // verus!
