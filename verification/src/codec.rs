//! Wire codec: variable-length integers, the fields that messages are made
//! of, and the framed control-message codec.
//!
//! Every value that travels has a model, its view, and three things are said
//! of the model: the bytes it is written as ([`Encode::wire`]), why it may be
//! refused ([`Encode::refusal`]), and what a byte sequence reads as
//! ([`Decode::parse`]). [`RoundTrip`] ties them together.

pub mod field;
pub mod length;
pub mod list;
pub mod message;
pub mod optional;
pub mod text;
pub mod varint;

pub use length::WithLengthCodec;
pub use message::ControlMessageCodec;
pub use varint::VarInt;

use vstd::prelude::*;
use bytes::BytesMut;
use crate::buffer::{contents, fits, append, as_slice};
use crate::codec::field::{value_of, end_of};
use crate::codec::varint::holds_at;
use crate::error::{Error, Fault};

verus! {

/// The models of a sequence of values, in order.
pub open spec fn views<T: View>(items: Seq<T>) -> Seq<T::V> {
    items.map_values(|item: T| item@)
}

/// Whether the outcome `r` of reading a value is the one that the grammar
/// gives: the value with its end position, or an error of the given kind.
pub open spec fn decoded<T: View>(
    r: Result<(T, usize), Error>,
    expected: Result<(T::V, int), Fault>,
) -> bool {
    match expected {
        Ok((m, next)) => r matches Ok((v, end)) && v@ == m && end == next,
        Err(f) => r matches Err(e) && e.fault() == Some(f),
    }
}

/// A value that can be written to the wire.
pub trait Encode: View {
    /// The bytes that the value is written as.
    spec fn wire(m: Self::V) -> Seq<u8>;

    /// Why the value cannot be written, if it cannot: the first rule of the
    /// grammar that it breaks, in the order of its fields.
    spec fn refusal(m: Self::V) -> Option<Fault>;

    /// Tests the value against the grammar, writing nothing.
    fn check(&self) -> (r: Result<(), Error>)
        ensures
            match Self::refusal(self@) {
                None => r is Ok,
                Some(f) => r matches Err(e) && e.fault() == Some(f),
            },
    ;

    /// Appends the bytes of a value that is not refused to `out`.
    fn write(&self, out: &mut Vec<u8>)
        requires
            Self::refusal(self@) is None,
        ensures
            final(out)@ == old(out)@ + Self::wire(self@),
    ;

    /// Appends the value's bytes to `buf`. A value that is refused, or whose
    /// bytes `buf` cannot take, leaves `buf` as it was.
    fn encode(&self, buf: &mut BytesMut) -> (r: Result<(), Error>)
        ensures
            match Self::refusal(self@) {
                Some(f) => r matches Err(e) && e.fault() == Some(f) && contents(final(buf))
                    == contents(old(buf)),
                None => if fits(contents(old(buf)), Self::wire(self@)) {
                    r is Ok && contents(final(buf)) == contents(old(buf)) + Self::wire(self@)
                } else {
                    r matches Err(Error::Codec(_)) && contents(final(buf)) == contents(old(buf))
                },
            },
    {
        self.check()?;
        let mut out: Vec<u8> = Vec::new();
        self.write(&mut out);
        assert(out@ =~= Self::wire(self@));
        append(buf, out.as_slice())
    }
}

/// A value that can be read from the wire.
pub trait Decode: View + Sized {
    /// What the bytes of `b` from `pos` on read as: the value and the position
    /// after it, or the reason why they are no value.
    spec fn parse(b: Seq<u8>, pos: int) -> Result<(Self::V, int), Fault>;

    /// Reads a value from `src` at `pos`; `src` is not changed.
    fn read(src: &[u8], pos: usize) -> (r: Result<(Self, usize), Error>)
        ensures
            decoded(r, Self::parse(src@, pos as int)),
            r matches Ok((_, end)) ==> pos <= end <= src@.len(),
    ;

    /// Takes a value from the front of `buf`. On an error nothing is taken.
    fn decode(buf: &mut BytesMut) -> (r: Result<Self, Error>)
        ensures
            match Self::parse(contents(old(buf)), 0) {
                Ok((m, next)) => r matches Ok(v) && v@ == m && contents(final(buf)) == contents(
                    old(buf),
                ).skip(next),
                Err(f) => r matches Err(e) && e.fault() == Some(f) && contents(final(buf))
                    == contents(old(buf)),
            },
    {
        match Self::read(as_slice(buf), 0) {
            Ok((v, end)) => {
                let _ = buf.split_to(end);
                Ok(v)
            },
            Err(e) => Err(e),
        }
    }
}

/// A value that comes back unchanged from its own bytes.
pub trait RoundTrip: Encode + Decode {
    /// Whether the model is one that reading can give: it breaks no rule, and
    /// it holds nothing that the wire does not carry.
    spec fn canonical(m: Self::V) -> bool;

    /// A canonical value is not refused, and wherever its bytes stand, they
    /// read as the value and end where the bytes end.
    proof fn lemma_round_trip(m: Self::V, b: Seq<u8>, pos: int)
        requires
            Self::canonical(m),
            holds_at(b, pos, Self::wire(m)),
        ensures
            Self::refusal(m) is None,
            Self::parse(b, pos) == Ok::<(Self::V, int), Fault>((m, pos + Self::wire(m).len())),
    ;

    /// Whatever bytes are read, the value that they read as is canonical, and
    /// it ends within them.
    proof fn lemma_parse_canonical(b: Seq<u8>, pos: int)
        requires
            Self::parse(b, pos) is Ok,
        ensures
            Self::canonical(value_of(Self::parse(b, pos))),
            pos <= end_of(Self::parse(b, pos)) <= b.len(),
    ;
}

/// What decoding gives can be encoded again, and decoding that gives the
/// same value.
pub proof fn lemma_decoded_is_stable<T: RoundTrip>(b: Seq<u8>, pos: int)
    requires
        T::parse(b, pos) is Ok,
    ensures
        T::refusal(value_of(T::parse(b, pos))) is None,
        T::parse(T::wire(value_of(T::parse(b, pos))), 0) == Ok::<(T::V, int), Fault>(
            (value_of(T::parse(b, pos)), T::wire(value_of(T::parse(b, pos))).len() as int),
        ),
{
    T::lemma_parse_canonical(b, pos);
    lemma_decode_encode::<T>(value_of(T::parse(b, pos)));
}

/// Decoding what encoding wrote gives the value back and uses up every byte.
pub proof fn lemma_decode_encode<T: RoundTrip>(m: T::V)
    requires
        T::canonical(m),
    ensures
        T::refusal(m) is None,
        T::parse(T::wire(m), 0) == Ok::<(T::V, int), Fault>((m, T::wire(m).len() as int)),
{
    reveal(holds_at);
    let w = T::wire(m);
    assert(w.subrange(0, w.len() as int) =~= w);
    T::lemma_round_trip(m, w, 0);
}

} // verus!
