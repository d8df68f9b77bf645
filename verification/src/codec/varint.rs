//! Variable-length integers, as QUIC writes them.
//!
//! A value below 2^62 is written in 1, 2, 4 or 8 bytes. The top two bits of
//! the first byte give the length, the remaining bits hold the value, most
//! significant byte first.

use vstd::prelude::*;
use bytes::BytesMut;
use crate::buffer::{contents, fits, append, as_slice};
use crate::error::Error;

verus! {

/// The least value that no variable-length integer can hold: 2^62.
pub const VARINT_LIMIT: u64 = 0x4000_0000_0000_0000;

/// The number of bytes in the shortest encoding of `v`.
pub open spec fn varint_len(v: u64) -> int {
    if v < 0x40 {
        1
    } else if v < 0x4000 {
        2
    } else if v < 0x4000_0000 {
        4
    } else {
        8
    }
}

/// The byte of `v` that has `below` bytes after it.
pub open spec fn byte_of(v: u64, below: int) -> u8 {
    if below == 0 {
        (v % 0x100) as u8
    } else if below == 1 {
        (v / 0x100 % 0x100) as u8
    } else if below == 2 {
        (v / 0x1_0000 % 0x100) as u8
    } else if below == 3 {
        (v / 0x100_0000 % 0x100) as u8
    } else if below == 4 {
        (v / 0x1_0000_0000 % 0x100) as u8
    } else if below == 5 {
        (v / 0x100_0000_0000 % 0x100) as u8
    } else if below == 6 {
        (v / 0x1_0000_0000_0000 % 0x100) as u8
    } else {
        (v / 0x100_0000_0000_0000 % 0x100) as u8
    }
}

/// The shortest encoding of `v`. It is meaningful for `v < VARINT_LIMIT`.
#[verifier::opaque]
pub open spec fn varint_wire(v: u64) -> Seq<u8> {
    if v < 0x40 {
        seq![byte_of(v, 0)]
    } else if v < 0x4000 {
        seq![(0x40 + byte_of(v, 1)) as u8, byte_of(v, 0)]
    } else if v < 0x4000_0000 {
        seq![(0x80 + byte_of(v, 3)) as u8, byte_of(v, 2), byte_of(v, 1), byte_of(v, 0)]
    } else {
        seq![
            (0xC0 + byte_of(v, 7)) as u8,
            byte_of(v, 6),
            byte_of(v, 5),
            byte_of(v, 4),
            byte_of(v, 3),
            byte_of(v, 2),
            byte_of(v, 1),
            byte_of(v, 0),
        ]
    }
}

/// The length that a first byte announces, by its top two bits.
pub open spec fn announced_len(first: u8) -> int {
    if first < 0x40 {
        1
    } else if first < 0x80 {
        2
    } else if first < 0xC0 {
        4
    } else {
        8
    }
}

/// The value that one byte holds below its top two bits.
pub open spec fn join1(b0: u8) -> u64 {
    (b0 % 0x40) as u64
}

/// The value of two bytes, the top two bits of the first left out.
pub open spec fn join2(b0: u8, b1: u8) -> u64 {
    ((b0 % 0x40) as u64 * 0x100 + b1 as u64) as u64
}

/// The value of four bytes, the top two bits of the first left out.
pub open spec fn join4(b0: u8, b1: u8, b2: u8, b3: u8) -> u64 {
    ((b0 % 0x40) as u64 * 0x100_0000 + b1 as u64 * 0x1_0000 + b2 as u64 * 0x100 + b3 as u64) as u64
}

/// The value of eight bytes, the top two bits of the first left out.
pub open spec fn join8(b0: u8, b1: u8, b2: u8, b3: u8, b4: u8, b5: u8, b6: u8, b7: u8) -> u64 {
    ((b0 % 0x40) as u64 * 0x100_0000_0000_0000
        + b1 as u64 * 0x1_0000_0000_0000
        + b2 as u64 * 0x100_0000_0000
        + b3 as u64 * 0x1_0000_0000
        + b4 as u64 * 0x100_0000
        + b5 as u64 * 0x1_0000
        + b6 as u64 * 0x100
        + b7 as u64) as u64
}

/// The value of the `n` bytes of `b` from `pos` on, the top two bits of the
/// first left out; `n` is 1, 2, 4 or 8.
pub open spec fn varint_value(b: Seq<u8>, pos: int, n: int) -> u64 {
    if n == 1 {
        join1(b[pos])
    } else if n == 2 {
        join2(b[pos], b[pos + 1])
    } else if n == 4 {
        join4(b[pos], b[pos + 1], b[pos + 2], b[pos + 3])
    } else {
        join8(
            b[pos],
            b[pos + 1],
            b[pos + 2],
            b[pos + 3],
            b[pos + 4],
            b[pos + 5],
            b[pos + 6],
            b[pos + 7],
        )
    }
}

/// Reads one variable-length integer from `b` at `pos`: the value and the
/// position after it, or `None` where `b` ends before the integer does. Any
/// length that the first byte announces is read, not only the shortest.
#[verifier::opaque]
pub open spec fn parse_varint(b: Seq<u8>, pos: int) -> Option<(u64, int)> {
    if 0 <= pos < b.len() && pos + announced_len(b[pos]) <= b.len() {
        let n = announced_len(b[pos]);
        Some((varint_value(b, pos, n), pos + n))
    } else {
        None
    }
}

/// Whether `b` holds the bytes `w` from position `pos` on.
#[verifier::opaque]
pub open spec fn holds_at(b: Seq<u8>, pos: int, w: Seq<u8>) -> bool {
    &&& 0 <= pos
    &&& pos + w.len() <= b.len()
    &&& b.subrange(pos, pos + w.len()) == w
}

/// A value of the first length class is its one byte.
proof fn lemma_class1(v: u64)
    by (bit_vector)
    requires
        v < 0x40,
    ensures
        byte_of(v, 0) < 0x40,
        join1(byte_of(v, 0)) == v,
{
}

/// A value of the second length class is put together again from its two
/// bytes, and leaves the top two bits of the first free.
proof fn lemma_class2(v: u64)
    by (bit_vector)
    requires
        0x40 <= v < 0x4000,
    ensures
        byte_of(v, 1) < 0x40,
        join2((0x40 + byte_of(v, 1)) as u8, byte_of(v, 0)) == v,
{
}

/// The same of the third length class and its four bytes.
proof fn lemma_class4(v: u64)
    by (bit_vector)
    requires
        0x4000 <= v < 0x4000_0000,
    ensures
        byte_of(v, 3) < 0x40,
        join4((0x80 + byte_of(v, 3)) as u8, byte_of(v, 2), byte_of(v, 1), byte_of(v, 0)) == v,
{
}

/// The same of the fourth length class and its eight bytes.
proof fn lemma_class8(v: u64)
    by (bit_vector)
    requires
        0x4000_0000 <= v < 0x4000_0000_0000_0000,
    ensures
        byte_of(v, 7) < 0x40,
        join8(
            (0xC0 + byte_of(v, 7)) as u8,
            byte_of(v, 6),
            byte_of(v, 5),
            byte_of(v, 4),
            byte_of(v, 3),
            byte_of(v, 2),
            byte_of(v, 1),
            byte_of(v, 0),
        ) == v,
{
}

/// What is read back from the shortest encoding of `v` is `v`, whatever
/// surrounds the encoding.
pub proof fn lemma_varint_round_trip(b: Seq<u8>, pos: int, v: u64)
    requires
        v < VARINT_LIMIT,
        holds_at(b, pos, varint_wire(v)),
    ensures
        parse_varint(b, pos) == Some((v, pos + varint_len(v))),
        varint_wire(v).len() == varint_len(v),
{
    reveal(holds_at);
    reveal(varint_wire);
    reveal(parse_varint);
    let w = varint_wire(v);
    assert forall|i: int| 0 <= i < w.len() implies b[pos + i] == #[trigger] w[i] by {
        assert(b.subrange(pos, pos + w.len())[i] == b[pos + i]);
    }
    if v < 0x40 {
        lemma_class1(v);
        assert(b[pos] == w[0]);
    } else if v < 0x4000 {
        lemma_class2(v);
        assert(b[pos] == w[0]);
        assert(b[pos + 1] == w[1]);
    } else if v < 0x4000_0000 {
        lemma_class4(v);
        assert(b[pos] == w[0]);
        assert(b[pos + 1] == w[1]);
        assert(b[pos + 2] == w[2]);
        assert(b[pos + 3] == w[3]);
    } else {
        lemma_class8(v);
        assert(b[pos] == w[0]);
        assert(b[pos + 1] == w[1]);
        assert(b[pos + 2] == w[2]);
        assert(b[pos + 3] == w[3]);
        assert(b[pos + 4] == w[4]);
        assert(b[pos + 5] == w[5]);
        assert(b[pos + 6] == w[6]);
        assert(b[pos + 7] == w[7]);
    }
}

/// Bytes of a given number hold only values below the bound of their class.
proof fn lemma_join_bounds(b0: u8, b1: u8, b2: u8, b3: u8, b4: u8, b5: u8, b6: u8, b7: u8)
    by (bit_vector)
    ensures
        join1(b0) < 0x40,
        join2(b0, b1) < 0x4000,
        join4(b0, b1, b2, b3) < 0x4000_0000,
        join8(b0, b1, b2, b3, b4, b5, b6, b7) < 0x4000_0000_0000_0000,
{
}

/// No encoding of a value is shorter than the one that `varint_wire` gives,
/// and every value read is below 2^62.
pub proof fn lemma_varint_shortest(b: Seq<u8>, pos: int)
    requires
        parse_varint(b, pos) is Some,
    ensures
        parse_varint(b, pos).unwrap().0 < VARINT_LIMIT,
        varint_len(parse_varint(b, pos).unwrap().0) <= parse_varint(b, pos).unwrap().1 - pos,
        varint_wire(parse_varint(b, pos).unwrap().0).len() == varint_len(
            parse_varint(b, pos).unwrap().0,
        ),
{
    reveal(varint_wire);
    reveal(parse_varint);
    let n = announced_len(b[pos]);
    if n == 1 {
        lemma_join_bounds(b[pos], 0, 0, 0, 0, 0, 0, 0);
    } else if n == 2 {
        lemma_join_bounds(b[pos], b[pos + 1], 0, 0, 0, 0, 0, 0);
    } else if n == 4 {
        lemma_join_bounds(b[pos], b[pos + 1], b[pos + 2], b[pos + 3], 0, 0, 0, 0);
    } else {
        lemma_join_bounds(
            b[pos],
            b[pos + 1],
            b[pos + 2],
            b[pos + 3],
            b[pos + 4],
            b[pos + 5],
            b[pos + 6],
            b[pos + 7],
        );
    }
}

/// Reads one variable-length integer from `src` at `pos` without consuming
/// anything: the value and the position after it, or `None` where `src` ends
/// before the integer does.
pub fn read_varint(src: &[u8], pos: usize) -> (r: Option<(u64, usize)>)
    ensures
        match parse_varint(src@, pos as int) {
            Some((v, next)) => r matches Some((value, end)) && value == v && end == next,
            None => r is None,
        },
        r matches Some((_, end)) ==> pos < end <= src@.len() && end - pos <= 8,
{
    proof {
        reveal(parse_varint);
    }
    if pos >= src.len() {
        return None;
    }
    let first: u8 = src[pos];
    let n: usize = if first < 0x40 {
        1
    } else if first < 0x80 {
        2
    } else if first < 0xC0 {
        4
    } else {
        8
    };
    if src.len() - pos < n {
        return None;
    }
    let head: u64 = (first % 0x40) as u64;
    let value: u64 = if n == 1 {
        head
    } else if n == 2 {
        let b1: u64 = src[pos + 1] as u64;
        head * 0x100 + b1
    } else if n == 4 {
        let b1: u64 = src[pos + 1] as u64;
        let b2: u64 = src[pos + 2] as u64;
        let b3: u64 = src[pos + 3] as u64;
        head * 0x100_0000 + b1 * 0x1_0000 + b2 * 0x100 + b3
    } else {
        let b1: u64 = src[pos + 1] as u64;
        let b2: u64 = src[pos + 2] as u64;
        let b3: u64 = src[pos + 3] as u64;
        let b4: u64 = src[pos + 4] as u64;
        let b5: u64 = src[pos + 5] as u64;
        let b6: u64 = src[pos + 6] as u64;
        let b7: u64 = src[pos + 7] as u64;
        head * 0x100_0000_0000_0000 + b1 * 0x1_0000_0000_0000 + b2 * 0x100_0000_0000 + b3
            * 0x1_0000_0000 + b4 * 0x100_0000 + b5 * 0x1_0000 + b6 * 0x100 + b7
    };
    Some((value, pos + n))
}

/// Whether `w` is one variable-length integer from its first byte to its
/// last, in the shortest form or a longer one.
pub open spec fn is_varint(w: Seq<u8>) -> bool {
    parse_varint(w, 0) matches Some((_, end)) && end == w.len()
}

/// Whether `bytes` is one variable-length integer from its first byte to
/// its last.
pub fn holds_varint(bytes: &[u8]) -> (r: bool)
    ensures
        r == is_varint(bytes@),
        r ==> 1 <= bytes@.len() <= 8,
{
    match read_varint(bytes, 0) {
        Some((_, end)) => end == bytes.len(),
        None => false,
    }
}

/// Appends the shortest encoding of `v` to `out`.
pub fn push_varint(out: &mut Vec<u8>, v: u64)
    requires
        v < VARINT_LIMIT,
    ensures
        final(out)@ == old(out)@ + varint_wire(v),
{
    proof {
        reveal(varint_wire);
    }
    if v < 0x40 {
        out.push((v % 0x100) as u8);
    } else if v < 0x4000 {
        proof {
            lemma_class2(v);
        }
        out.push(0x40 + (v / 0x100 % 0x100) as u8);
        out.push((v % 0x100) as u8);
    } else if v < 0x4000_0000 {
        proof {
            lemma_class4(v);
        }
        out.push(0x80 + (v / 0x100_0000 % 0x100) as u8);
        out.push((v / 0x1_0000 % 0x100) as u8);
        out.push((v / 0x100 % 0x100) as u8);
        out.push((v % 0x100) as u8);
    } else {
        proof {
            lemma_class8(v);
        }
        out.push(0xC0 + (v / 0x100_0000_0000_0000 % 0x100) as u8);
        out.push((v / 0x1_0000_0000_0000 % 0x100) as u8);
        out.push((v / 0x100_0000_0000 % 0x100) as u8);
        out.push((v / 0x1_0000_0000 % 0x100) as u8);
        out.push((v / 0x100_0000 % 0x100) as u8);
        out.push((v / 0x1_0000 % 0x100) as u8);
        out.push((v / 0x100 % 0x100) as u8);
        out.push((v % 0x100) as u8);
    }
    assert(out@ =~= old(out)@ + varint_wire(v));
}

/// The codec of one variable-length integer.
pub struct VarInt;

impl VarInt {
    /// Appends the shortest encoding of `item` to `dst`. A value of 2^62 or
    /// more has no encoding: it is refused and `dst` is left as it was, as it
    /// is where it cannot take the bytes.
    pub fn encode(&mut self, item: u64, dst: &mut BytesMut) -> (r: Result<(), Error>)
        ensures
            if item >= VARINT_LIMIT {
                r == Err::<(), Error>(Error::VarIntRange) && contents(final(dst)) == contents(
                    old(dst),
                )
            } else if fits(contents(old(dst)), varint_wire(item)) {
                r is Ok && contents(final(dst)) == contents(old(dst)) + varint_wire(item)
            } else {
                r matches Err(Error::Codec(_)) && contents(final(dst)) == contents(old(dst))
            },
            varint_wire(item).len() == varint_len(item),
    {
        proof {
            reveal(varint_wire);
        }
        if item >= VARINT_LIMIT {
            return Err(Error::VarIntRange);
        }
        let mut out: Vec<u8> = Vec::new();
        push_varint(&mut out, item);
        assert(out@ =~= varint_wire(item));
        append(dst, out.as_slice())
    }

    /// Takes one variable-length integer from the front of `src`. Where `src`
    /// ends before the integer does, nothing is taken and the result is
    /// `None`. This never fails.
    pub fn decode(&mut self, src: &mut BytesMut) -> (r: Result<Option<u64>, Error>)
        ensures
            match parse_varint(contents(old(src)), 0) {
                Some((v, next)) => r == Ok::<Option<u64>, Error>(Some(v)) && contents(final(src))
                    == contents(old(src)).skip(next),
                None => r == Ok::<Option<u64>, Error>(None) && contents(final(src)) == contents(
                    old(src),
                ),
            },
    {
        match read_varint(as_slice(src), 0) {
            Some((value, next)) => {
                let _ = src.split_to(next);
                Ok(Some(value))
            },
            None => Ok(None),
        }
    }
}

} // verus!
