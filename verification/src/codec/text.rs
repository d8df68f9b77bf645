//! Text fields: a length, then that many bytes of UTF-8.

use vstd::prelude::*;
use vstd::slice::{slice_subrange, slice_to_vec};
use vstd::utf8::{
    encode_utf8, decode_utf8, valid_utf8, encode_utf8_valid_utf8, encode_utf8_decode_utf8,
    decode_utf8_encode_utf8,
};
use crate::codec::{Encode, Decode, RoundTrip};
use crate::codec::field::{
    InOrder, value_of, end_of, range_refusal, rule, parse_int, read_int, check_int, check_rule,
    write_int, write_bytes, lemma_holds_at_concat, lemma_int_parsed, lemma_int_round_trip,
};
use crate::codec::varint::{VARINT_LIMIT, varint_wire, holds_at};
use crate::error::{Error, Fault};

verus! {

/// `String::from_utf8` turns bytes that are UTF-8 into the text that they
/// encode, and refuses all other bytes.
#[verifier::external_body]
fn text_from_utf8(bytes: Vec<u8>) -> (r: Option<String>)
    ensures
        r is Some <==> valid_utf8(bytes@),
        r matches Some(text) ==> encode_utf8(text@) == bytes@,
{
    match String::from_utf8(bytes) {
        Ok(text) => Some(text),
        Err(_) => None,
    }
}

/// Text travels as the length of its UTF-8 bytes, then those bytes.
impl Encode for String {
    open spec fn wire(m: Seq<char>) -> Seq<u8> {
        varint_wire(encode_utf8(m).len() as u64) + encode_utf8(m)
    }

    open spec fn refusal(m: Seq<char>) -> Option<Fault> {
        range_refusal(encode_utf8(m).len() as int)
    }

    fn check(&self) -> (r: Result<(), Error>) {
        check_int(self.as_str().as_bytes().len() as u64)
    }

    fn write(&self, out: &mut Vec<u8>) {
        let bytes = self.as_str().as_bytes();
        write_int(out, bytes.len() as u64);
        write_bytes(out, bytes);
        assert(out@ =~= old(out)@ + Self::wire(self@));
    }
}

impl Decode for String {
    open spec fn parse(b: Seq<u8>, pos: int) -> Result<(Seq<char>, int), Fault> {
        match parse_int(b, pos) {
            Err(f) => Err(f),
            Ok((len, start)) => if b.len() - start < len {
                Err(Fault::UnexpectedEof)
            } else if !valid_utf8(b.subrange(start, start + len)) {
                Err(Fault::InvalidData)
            } else {
                Ok((decode_utf8(b.subrange(start, start + len)), start + len))
            },
        }
    }

    fn read(src: &[u8], pos: usize) -> (r: Result<(Self, usize), Error>) {
        let (len, start) = read_int(src, pos, "text length")?;
        if ((src.len() - start) as u64) < len {
            return Err(Error::unexpected_eof("text"));
        }
        let end: usize = start + len as usize;
        let bytes = slice_to_vec(slice_subrange(src, start, end));
        match text_from_utf8(bytes) {
            Some(text) => {
                proof {
                    encode_utf8_decode_utf8(text@);
                }
                Ok((text, end))
            },
            None => Err(Error::invalid_data("text is not UTF-8")),
        }
    }
}

impl RoundTrip for String {
    open spec fn canonical(m: Seq<char>) -> bool {
        encode_utf8(m).len() < VARINT_LIMIT
    }

    proof fn lemma_round_trip(m: Seq<char>, b: Seq<u8>, pos: int) {
        reveal(holds_at);
        let bytes = encode_utf8(m);
        let head = varint_wire(bytes.len() as u64);
        lemma_holds_at_concat(b, pos, head, bytes);
        lemma_int_round_trip(bytes.len() as u64, b, pos);
        encode_utf8_valid_utf8(m);
        encode_utf8_decode_utf8(m);
    }

    proof fn lemma_parse_canonical(b: Seq<u8>, pos: int) {
        lemma_int_parsed(b, pos);
        let len = value_of(parse_int(b, pos));
        let start = end_of(parse_int(b, pos));
        decode_utf8_encode_utf8(b.subrange(start, start + len));
    }
}

/// Why text that may take at most `max` bytes cannot be written.
pub open spec fn text_refusal_within(m: Seq<char>, max: u64) -> Option<Fault> {
    rule(encode_utf8(m).len() <= max).otherwise(String::refusal(m))
}

/// Reads text that may take at most `max` bytes. A longer length is refused
/// before any of the text is looked at.
pub open spec fn parse_text_within(b: Seq<u8>, pos: int, max: u64) -> Result<
    (Seq<char>, int),
    Fault,
> {
    match parse_int(b, pos) {
        Err(f) => Err(f),
        Ok((len, _)) => if len > max {
            Err(Fault::ProtocolViolation)
        } else {
            String::parse(b, pos)
        },
    }
}

/// Text that was read within a limit is canonical and within the limit, and
/// ends within the bytes.
pub proof fn lemma_text_within_parsed(b: Seq<u8>, pos: int, max: u64)
    requires
        parse_text_within(b, pos, max) is Ok,
    ensures
        String::canonical(value_of(parse_text_within(b, pos, max))),
        encode_utf8(value_of(parse_text_within(b, pos, max))).len() <= max,
        pos <= end_of(parse_text_within(b, pos, max)) <= b.len(),
{
    String::lemma_parse_canonical(b, pos);
    lemma_int_parsed(b, pos);
    let len = value_of(parse_int(b, pos));
    let start = end_of(parse_int(b, pos));
    decode_utf8_encode_utf8(b.subrange(start, start + len));
}

/// Tests text against its limit; `reason` names the limit in the error.
pub fn check_text_within(text: &String, max: u64, reason: &str) -> (r: Result<(), Error>)
    ensures
        match text_refusal_within(text@, max) {
            None => r is Ok,
            Some(f) => r matches Err(e) && e.fault() == Some(f),
        },
{
    check_rule(text.as_str().as_bytes().len() as u64 <= max, reason)?;
    text.check()
}

/// Reads text of at most `max` bytes from `src` at `pos`; `reason` names the
/// limit in the error.
pub fn read_text_within(src: &[u8], pos: usize, max: u64, reason: &str) -> (r: Result<
    (String, usize),
    Error,
>)
    ensures
        match parse_text_within(src@, pos as int, max) {
            Ok((m, next)) => r matches Ok((text, end)) && text@ == m && end == next,
            Err(f) => r matches Err(e) && e.fault() == Some(f),
        },
        r matches Ok((_, end)) ==> pos <= end <= src@.len(),
{
    let (len, _) = read_int(src, pos, "text length")?;
    if len > max {
        return Err(Error::violation(reason));
    }
    String::read(src, pos)
}

/// Text within its limit is not refused, and its bytes read as the text.
pub proof fn lemma_text_within_round_trip(m: Seq<char>, max: u64, b: Seq<u8>, pos: int)
    requires
        String::canonical(m),
        encode_utf8(m).len() <= max,
        holds_at(b, pos, String::wire(m)),
    ensures
        text_refusal_within(m, max) is None,
        parse_text_within(b, pos, max) == Ok::<(Seq<char>, int), Fault>(
            (m, pos + String::wire(m).len()),
        ),
{
    let bytes = encode_utf8(m);
    lemma_holds_at_concat(b, pos, varint_wire(bytes.len() as u64), bytes);
    lemma_int_round_trip(bytes.len() as u64, b, pos);
    String::lemma_round_trip(m, b, pos);
}

} // verus!
