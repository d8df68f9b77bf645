//! Length-delimited values: a length, then that many bytes, which hold one
//! value and nothing else.

use vstd::prelude::*;
use vstd::slice::slice_subrange;
use std::marker::PhantomData;
use bytes::BytesMut;
use crate::buffer::{contents, fits, append, as_slice};
use crate::codec::{Encode, Decode, RoundTrip};
use crate::codec::field::{
    InOrder, range_refusal, check_int, write_int, write_bytes, lemma_append, lemma_holds_at_concat,
};
use crate::codec::varint::{
    VARINT_LIMIT, varint_wire, parse_varint, read_varint, holds_at, lemma_varint_round_trip,
};
use crate::error::{Error, Fault};

verus! {

/// A payload behind its length.
pub open spec fn delimited_wire(payload: Seq<u8>) -> Seq<u8> {
    varint_wire(payload.len() as u64) + payload
}

/// Why a value cannot be written behind its length: it is refused, or its
/// bytes are too many to count.
pub open spec fn delimited_refusal<T: Encode>(m: T::V) -> Option<Fault> {
    T::refusal(m).otherwise(range_refusal(T::wire(m).len() as int))
}

/// Where the payload of the delimited value at `pos` starts and ends, or
/// `None` where `b` ends before the length or the payload does.
pub open spec fn parse_delimited(b: Seq<u8>, pos: int) -> Option<(int, int)> {
    match parse_varint(b, pos) {
        None => None,
        Some((len, start)) => if b.len() - start < len {
            None
        } else {
            Some((start, start + len))
        },
    }
}

/// Reads a payload as one value. Bytes that the value leaves over are a
/// violation of the protocol.
#[verifier::opaque]
pub open spec fn parse_whole<T: Decode>(payload: Seq<u8>) -> Result<T::V, Fault> {
    match T::parse(payload, 0) {
        Err(f) => Err(f),
        Ok((m, end)) => if end == payload.len() {
            Ok(m)
        } else {
            Err(Fault::ProtocolViolation)
        },
    }
}

/// The bytes of a canonical value, behind their length, are found again as
/// the payload, and the payload reads as the value.
pub proof fn lemma_delimited_round_trip<T: RoundTrip>(m: T::V, b: Seq<u8>, pos: int)
    requires
        T::canonical(m),
        T::wire(m).len() < VARINT_LIMIT,
        holds_at(b, pos, delimited_wire(T::wire(m))),
    ensures
        delimited_refusal::<T>(m) is None,
        parse_delimited(b, pos) == Some(
            (
                pos + varint_wire(T::wire(m).len() as u64).len(),
                pos + delimited_wire(T::wire(m)).len(),
            ),
        ),
        b.subrange(
            pos + varint_wire(T::wire(m).len() as u64).len(),
            pos + delimited_wire(T::wire(m)).len(),
        ) == T::wire(m),
        parse_whole::<T>(T::wire(m)) == Ok::<T::V, Fault>(m),
{
    let payload = T::wire(m);
    let head = varint_wire(payload.len() as u64);
    lemma_holds_at_concat(b, pos, head, payload);
    lemma_varint_round_trip(b, pos, payload.len() as u64);
    lemma_whole_round_trip::<T>(m);
    reveal(holds_at);
}

/// The bytes of a canonical value read as the value, with nothing left over.
pub proof fn lemma_whole_round_trip<T: RoundTrip>(m: T::V)
    requires
        T::canonical(m),
    ensures
        T::refusal(m) is None,
        parse_whole::<T>(T::wire(m)) == Ok::<T::V, Fault>(m),
{
    reveal(holds_at);
    reveal(parse_whole);
    let payload = T::wire(m);
    assert(payload.subrange(0, payload.len() as int) =~= payload);
    T::lemma_round_trip(m, payload, 0);
}

/// A payload that reads as a value reads as a canonical one.
pub proof fn lemma_whole_parsed<T: RoundTrip>(payload: Seq<u8>)
    requires
        parse_whole::<T>(payload) is Ok,
    ensures
        T::canonical(parse_whole::<T>(payload)->Ok_0),
{
    reveal(parse_whole);
    T::lemma_parse_canonical(payload, 0);
}

/// Finds the payload of the delimited value in `src` at `pos`.
pub fn read_delimited(src: &[u8], pos: usize) -> (r: Option<(usize, usize)>)
    ensures
        match parse_delimited(src@, pos as int) {
            Some((start, end)) => r matches Some((from, to)) && from == start && to == end,
            None => r is None,
        },
        r matches Some((from, to)) ==> pos < from <= to <= src@.len(),
{
    match read_varint(src, pos) {
        None => None,
        Some((len, start)) => {
            if ((src.len() - start) as u64) < len {
                None
            } else {
                Some((start, start + len as usize))
            }
        },
    }
}

/// Reads `payload` as one value.
pub fn read_whole<T: Decode>(payload: &[u8]) -> (r: Result<T, Error>)
    ensures
        match parse_whole::<T>(payload@) {
            Ok(m) => r matches Ok(v) && v@ == m,
            Err(f) => r matches Err(e) && e.fault() == Some(f),
        },
{
    proof {
        reveal(parse_whole);
    }
    let (v, end) = T::read(payload, 0)?;
    if end != payload.len() {
        return Err(Error::violation("excess payload"));
    }
    Ok(v)
}

/// Appends `payload` behind its length.
pub fn write_delimited(out: &mut Vec<u8>, payload: &[u8])
    requires
        payload@.len() < VARINT_LIMIT,
    ensures
        final(out)@ == old(out)@ + delimited_wire(payload@),
{
    write_int(out, payload.len() as u64);
    write_bytes(out, payload);
    proof {
        lemma_append(old(out)@, varint_wire(payload@.len() as u64), payload@);
    }
}

/// The codec of values that travel behind their length.
pub struct WithLengthCodec<T> {
    _marker: PhantomData<T>,
}

impl WithLengthCodec<()> {
    /// A codec to write delimited values with.
    pub fn new() -> Self {
        WithLengthCodec { _marker: PhantomData }
    }
}

impl<T> WithLengthCodec<T> {
    /// A codec to read delimited values of type `T` with.
    pub fn of() -> Self {
        WithLengthCodec { _marker: PhantomData }
    }
}

impl<U> WithLengthCodec<U> {
    /// Appends the length of the bytes of `item` and then those bytes. An
    /// item that is refused, or whose bytes `dst` cannot take, leaves `dst` as
    /// it was.
    pub fn encode<T: Encode>(&mut self, item: T, dst: &mut BytesMut) -> (r: Result<(), Error>)
        ensures
            match delimited_refusal::<T>(item@) {
                Some(f) => r matches Err(e) && e.fault() == Some(f) && contents(final(dst))
                    == contents(old(dst)),
                None => if fits(contents(old(dst)), delimited_wire(T::wire(item@))) {
                    r is Ok && contents(final(dst)) == contents(old(dst)) + delimited_wire(
                        T::wire(item@),
                    )
                } else {
                    r matches Err(Error::Codec(_)) && contents(final(dst)) == contents(old(dst))
                },
            },
    {
        item.check()?;
        let mut payload: Vec<u8> = Vec::new();
        item.write(&mut payload);
        assert(payload@ =~= T::wire(item@));
        check_int(payload.len() as u64)?;
        let mut out: Vec<u8> = Vec::new();
        write_delimited(&mut out, payload.as_slice());
        assert(out@ =~= delimited_wire(T::wire(item@)));
        append(dst, out.as_slice())
    }
}

impl<T: Decode> WithLengthCodec<T> {
    /// Takes one delimited value from the front of `src`. Where `src` ends
    /// before the value does, nothing is taken and the result is `None`.
    /// Once the value is all there its bytes are taken, whether or not they
    /// read as a `T`.
    pub fn decode(&mut self, src: &mut BytesMut) -> (r: Result<Option<T>, Error>)
        ensures
            match parse_delimited(contents(old(src)), 0) {
                None => r matches Ok(None) && contents(final(src)) == contents(old(src)),
                Some((start, end)) => {
                    &&& contents(final(src)) == contents(old(src)).skip(end)
                    &&& match parse_whole::<T>(contents(old(src)).subrange(start, end)) {
                        Ok(m) => r matches Ok(Some(v)) && v@ == m,
                        Err(f) => r matches Err(e) && e.fault() == Some(f),
                    }
                },
            },
    {
        let (start, end) = match read_delimited(as_slice(src), 0) {
            Some(found) => found,
            None => {
                return Ok(None);
            },
        };
        let taken = src.split_to(end);
        let payload = slice_subrange(as_slice(&taken), start, end);
        assert(payload@ =~= contents(old(src)).subrange(start as int, end as int));
        let item = read_whole::<T>(payload)?;
        Ok(Some(item))
    }
}

} // verus!
