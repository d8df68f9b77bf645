//! The plainest fields that message payloads are made of: required
//! integers, single bytes and flags.

use vstd::prelude::*;
use crate::codec::{Encode, Decode, RoundTrip, decoded};
use crate::codec::varint::{
    VARINT_LIMIT, varint_wire, parse_varint, read_varint, push_varint, holds_at,
    lemma_varint_round_trip, lemma_varint_shortest,
};
use crate::error::{Error, Fault};

verus! {

/// Refusals in order: the first that there is counts.
pub trait InOrder {
    /// This refusal, or `next` where there is none.
    spec fn otherwise(self, next: Option<Fault>) -> Option<Fault>;
}

impl InOrder for Option<Fault> {
    open spec fn otherwise(self, next: Option<Fault>) -> Option<Fault> {
        if self is Some {
            self
        } else {
            next
        }
    }
}

/// The value that reading a field gave. Where the field could not be read
/// this is of no account: the failure decides what the message reads as.
pub open spec fn value_of<T>(r: Result<(T, int), Fault>) -> T {
    r->Ok_0.0
}

/// The position after a field that was read. Where the field could not be
/// read this is of no account.
pub open spec fn end_of<T>(r: Result<(T, int), Fault>) -> int {
    r->Ok_0.1
}

/// Why a field could not be read, if it could not.
pub open spec fn failure<T>(r: Result<(T, int), Fault>) -> Option<Fault> {
    match r {
        Ok(_) => None,
        Err(f) => Some(f),
    }
}

/// The refusal of an integer that no variable-length integer can hold.
pub open spec fn range_refusal(v: int) -> Option<Fault> {
    if v >= VARINT_LIMIT {
        Some(Fault::VarIntRange)
    } else {
        None
    }
}

/// The refusal of a value that breaks a rule of the grammar.
pub open spec fn rule(kept: bool) -> Option<Fault> {
    if kept {
        None
    } else {
        Some(Fault::ProtocolViolation)
    }
}

/// Where `b` holds `x` followed by `y`, it holds each of them at its place.
pub proof fn lemma_holds_at_concat(b: Seq<u8>, pos: int, x: Seq<u8>, y: Seq<u8>)
    requires
        holds_at(b, pos, x + y),
    ensures
        holds_at(b, pos, x),
        holds_at(b, pos + x.len(), y),
{
    reveal(holds_at);
    let w = x + y;
    assert(b.subrange(pos, pos + x.len()) =~= x) by {
        let head = b.subrange(pos, pos + x.len());
        assert forall|i: int| 0 <= i < x.len() implies head[i] == x[i] by {
            assert(b.subrange(pos, pos + w.len())[i] == w[i]);
        }
    }
    assert(b.subrange(pos + x.len(), pos + x.len() + y.len()) =~= y) by {
        assert forall|i: int| 0 <= i < y.len() implies b.subrange(
            pos + x.len(),
            pos + x.len() + y.len(),
        )[i] == y[i] by {
            assert(b.subrange(pos, pos + w.len())[x.len() + i] == w[x.len() + i]);
        }
    }
}

/// Appending `next` to what already follows `base` extends what follows it.
pub proof fn lemma_append(base: Seq<u8>, done: Seq<u8>, next: Seq<u8>)
    ensures
        (base + done) + next == base + (done + next),
{
    assert((base + done) + next =~= base + (done + next));
}

/// Reads the integer that a message must hold at `pos`.
pub open spec fn parse_int(b: Seq<u8>, pos: int) -> Result<(u64, int), Fault> {
    match parse_varint(b, pos) {
        Some((v, next)) => Ok((v, next)),
        None => Err(Fault::UnexpectedEof),
    }
}

/// Reads the byte that a message must hold at `pos`.
pub open spec fn parse_byte(b: Seq<u8>, pos: int) -> Result<(u8, int), Fault> {
    if 0 <= pos < b.len() {
        Ok((b[pos], pos + 1))
    } else {
        Err(Fault::UnexpectedEof)
    }
}

/// Reads a required integer from `src` at `pos`; `what` names it in the error.
pub fn read_int(src: &[u8], pos: usize, what: &str) -> (r: Result<(u64, usize), Error>)
    ensures
        decoded(r, parse_int(src@, pos as int)),
        r matches Ok((_, end)) ==> pos < end <= src@.len(),
{
    match read_varint(src, pos) {
        Some((v, next)) => Ok((v, next)),
        None => Err(Error::unexpected_eof(what)),
    }
}

/// Reads a required byte from `src` at `pos`; `what` names it in the error.
pub fn read_byte(src: &[u8], pos: usize, what: &str) -> (r: Result<(u8, usize), Error>)
    ensures
        decoded(r, parse_byte(src@, pos as int)),
        r matches Ok((_, end)) ==> end == pos + 1 && end <= src@.len(),
{
    if pos < src.len() {
        Ok((src[pos], pos + 1))
    } else {
        Err(Error::unexpected_eof(what))
    }
}

/// Tests that an integer fits a variable-length integer.
pub fn check_int(v: u64) -> (r: Result<(), Error>)
    ensures
        match range_refusal(v as int) {
            None => r is Ok,
            Some(f) => r matches Err(e) && e.fault() == Some(f),
        },
{
    if v >= VARINT_LIMIT {
        Err(Error::VarIntRange)
    } else {
        Ok(())
    }
}

/// Tests a rule of the grammar; `reason` names the rule in the error.
pub fn check_rule(kept: bool, reason: &str) -> (r: Result<(), Error>)
    ensures
        match rule(kept) {
            None => r is Ok,
            Some(f) => r matches Err(e) && e.fault() == Some(f),
        },
{
    if kept {
        Ok(())
    } else {
        Err(Error::violation(reason))
    }
}

/// Appends the shortest encoding of an integer that has one.
pub fn write_int(out: &mut Vec<u8>, v: u64)
    requires
        v < VARINT_LIMIT,
    ensures
        final(out)@ == old(out)@ + varint_wire(v),
{
    push_varint(out, v);
}

/// Appends one byte.
pub fn write_byte(out: &mut Vec<u8>, byte: u8)
    ensures
        final(out)@ == old(out)@ + seq![byte],
{
    out.push(byte);
    assert(out@ =~= old(out)@ + seq![byte]);
}

/// Appends bytes as they are.
pub fn write_bytes(out: &mut Vec<u8>, bytes: &[u8])
    ensures
        final(out)@ == old(out)@ + bytes@,
{
    out.extend_from_slice(bytes);
    assert(out@ =~= old(out)@ + bytes@);
}

/// A byte that stands at its place reads as itself.
pub proof fn lemma_byte_round_trip(byte: u8, b: Seq<u8>, pos: int)
    requires
        holds_at(b, pos, seq![byte]),
    ensures
        parse_byte(b, pos) == Ok::<(u8, int), Fault>((byte, pos + 1)),
{
    reveal(holds_at);
    assert(b.subrange(pos, pos + 1)[0] == b[pos]);
}

/// An integer whose shortest encoding stands at its place reads as itself.
pub proof fn lemma_int_round_trip(v: u64, b: Seq<u8>, pos: int)
    requires
        v < VARINT_LIMIT,
        holds_at(b, pos, varint_wire(v)),
    ensures
        parse_int(b, pos) == Ok::<(u64, int), Fault>((v, pos + varint_wire(v).len())),
{
    lemma_varint_round_trip(b, pos, v);
}

/// An integer that was read is below 2^62 and ends within the bytes.
pub proof fn lemma_int_parsed(b: Seq<u8>, pos: int)
    requires
        parse_int(b, pos) is Ok,
    ensures
        value_of(parse_int(b, pos)) < VARINT_LIMIT,
        0 <= pos < end_of(parse_int(b, pos)) <= b.len(),
{
    lemma_varint_shortest(b, pos);
    reveal(parse_varint);
}

/// A flag travels as one byte, 1 for set and 0 for clear.
pub open spec fn flag_wire(set: bool) -> Seq<u8> {
    seq![if set { 1u8 } else { 0u8 }]
}

/// Reads the flag that a message must hold at `pos`; a byte above 1 is no
/// flag.
pub open spec fn parse_flag(b: Seq<u8>, pos: int) -> Result<(bool, int), Fault> {
    match parse_byte(b, pos) {
        Err(f) => Err(f),
        Ok((byte, next)) => if byte > 1 {
            Err(Fault::ProtocolViolation)
        } else {
            Ok((byte == 1, next))
        },
    }
}

/// Reads a required flag from `src` at `pos`; `what` names it in the error.
pub fn read_flag(src: &[u8], pos: usize, what: &str) -> (r: Result<(bool, usize), Error>)
    ensures
        decoded(r, parse_flag(src@, pos as int)),
        r matches Ok((_, end)) ==> end == pos + 1 && end <= src@.len(),
{
    let (byte, next) = read_byte(src, pos, what)?;
    if byte > 1 {
        return Err(Error::violation(what));
    }
    Ok((byte == 1, next))
}

/// Appends one flag.
pub fn write_flag(out: &mut Vec<u8>, set: bool)
    ensures
        final(out)@ == old(out)@ + flag_wire(set),
{
    write_byte(out, if set { 1 } else { 0 });
}

/// A flag that stands at its place reads as itself.
pub proof fn lemma_flag_round_trip(set: bool, b: Seq<u8>, pos: int)
    requires
        holds_at(b, pos, flag_wire(set)),
    ensures
        parse_flag(b, pos) == Ok::<(bool, int), Fault>((set, pos + 1)),
{
    lemma_byte_round_trip(if set { 1u8 } else { 0u8 }, b, pos);
}

/// A 64-bit number travels as an integer; only a number below 2^62 can.
impl Encode for u64 {
    open spec fn wire(m: u64) -> Seq<u8> {
        varint_wire(m)
    }

    open spec fn refusal(m: u64) -> Option<Fault> {
        range_refusal(m as int)
    }

    fn check(&self) -> (r: Result<(), Error>) {
        check_int(*self)
    }

    fn write(&self, out: &mut Vec<u8>) {
        write_int(out, *self);
    }
}

impl Decode for u64 {
    open spec fn parse(b: Seq<u8>, pos: int) -> Result<(u64, int), Fault> {
        parse_int(b, pos)
    }

    fn read(src: &[u8], pos: usize) -> (r: Result<(Self, usize), Error>) {
        read_int(src, pos, "integer")
    }
}

impl RoundTrip for u64 {
    open spec fn canonical(m: u64) -> bool {
        m < VARINT_LIMIT
    }

    proof fn lemma_round_trip(m: u64, b: Seq<u8>, pos: int) {
        lemma_int_round_trip(m, b, pos);
    }

    proof fn lemma_parse_canonical(b: Seq<u8>, pos: int) {
        lemma_int_parsed(b, pos);
    }
}

/// A 32-bit number, such as a protocol version, travels as an integer.
impl Encode for u32 {
    open spec fn wire(m: u32) -> Seq<u8> {
        varint_wire(m as u64)
    }

    open spec fn refusal(m: u32) -> Option<Fault> {
        None
    }

    fn check(&self) -> (r: Result<(), Error>) {
        Ok(())
    }

    fn write(&self, out: &mut Vec<u8>) {
        write_int(out, *self as u64);
    }
}

/// An integer that does not fit 32 bits is out of range.
impl Decode for u32 {
    open spec fn parse(b: Seq<u8>, pos: int) -> Result<(u32, int), Fault> {
        match parse_int(b, pos) {
            Err(f) => Err(f),
            Ok((v, next)) => if v > u32::MAX {
                Err(Fault::VarIntRange)
            } else {
                Ok((v as u32, next))
            },
        }
    }

    fn read(src: &[u8], pos: usize) -> (r: Result<(Self, usize), Error>) {
        let (v, next) = read_int(src, pos, "version")?;
        if v > u32::MAX as u64 {
            return Err(Error::VarIntRange);
        }
        Ok((v as u32, next))
    }
}

impl RoundTrip for u32 {
    open spec fn canonical(m: u32) -> bool {
        true
    }

    proof fn lemma_round_trip(m: u32, b: Seq<u8>, pos: int) {
        lemma_int_round_trip(m as u64, b, pos);
    }

    proof fn lemma_parse_canonical(b: Seq<u8>, pos: int) {
        lemma_int_parsed(b, pos);
    }
}

} // verus!
