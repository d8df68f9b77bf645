//! The values that many payloads share: a position in a track and a
//! key/value parameter.

use vstd::prelude::*;
use vstd::slice::{slice_subrange, slice_to_vec};
use crate::codec::{Encode, Decode, RoundTrip};
use crate::codec::field::{
    InOrder, value_of, end_of, range_refusal, rule, parse_int, read_int, check_int, check_rule,
    write_int, write_bytes, lemma_holds_at_concat, lemma_int_parsed, lemma_int_round_trip,
};
use crate::codec::varint::{
    VARINT_LIMIT, varint_wire, parse_varint, holds_at, is_varint, holds_varint,
    lemma_varint_round_trip, lemma_varint_shortest,
};
use crate::error::{Error, Fault};

verus! {

/// The longest value of a parameter of odd type, in bytes.
pub const MAX_PARAMETER_LENGTH: u64 = 0xFFFF;

/// The least number of parts in a track namespace or a namespace prefix.
pub const MIN_NAMESPACE_PARTS: u64 = 1;

/// The greatest number of parts in a track namespace or a namespace prefix.
pub const MAX_NAMESPACE_PARTS: u64 = 32;

/// A position in a track: an object within a group. Positions within one
/// track are ordered by group, then by object.
#[derive(Debug, PartialEq, Eq, Clone)]
pub struct Location {
    pub group: u64,
    pub object: u64,
}

impl Location {
    /// Whether this is the position (0, 0).
    pub open spec fn spec_is_origin(&self) -> bool {
        self.group == 0 && self.object == 0
    }

    /// Whether this is the position (0, 0).
    #[verifier::when_used_as_spec(spec_is_origin)]
    pub fn is_origin(&self) -> (r: bool)
        ensures
            r == self.spec_is_origin(),
    {
        self.group == 0 && self.object == 0
    }

    /// Whether this position comes before `other`: in an earlier group, or
    /// in the same group and earlier in it.
    pub open spec fn spec_precedes(&self, other: &Location) -> bool {
        self.group < other.group || (self.group == other.group && self.object < other.object)
    }

    /// Whether this position comes before `other`.
    #[verifier::when_used_as_spec(spec_precedes)]
    pub fn precedes(&self, other: &Location) -> (r: bool)
        ensures
            r == self.spec_precedes(other),
    {
        self.group < other.group || (self.group == other.group && self.object < other.object)
    }
}

/// Positions are in a total order: of two positions one comes before the
/// other or they are the same, never both; and what comes before a position
/// comes before all that the position comes before.
pub proof fn lemma_location_order(a: Location, b: Location, c: Location)
    ensures
        a.spec_precedes(&b) || b.spec_precedes(&a) || a == b,
        !(a.spec_precedes(&b) && b.spec_precedes(&a)),
        !a.spec_precedes(&a),
        a.spec_precedes(&b) && b.spec_precedes(&c) ==> a.spec_precedes(&c),
{
}

impl View for Location {
    type V = Location;

    open spec fn view(&self) -> Location {
        *self
    }
}

/// A position travels as two integers, group then object.
impl Encode for Location {
    open spec fn wire(m: Location) -> Seq<u8> {
        varint_wire(m.group) + varint_wire(m.object)
    }

    open spec fn refusal(m: Location) -> Option<Fault> {
        range_refusal(m.group as int).otherwise(range_refusal(m.object as int))
    }

    fn check(&self) -> (r: Result<(), Error>) {
        check_int(self.group)?;
        check_int(self.object)
    }

    fn write(&self, out: &mut Vec<u8>) {
        write_int(out, self.group);
        write_int(out, self.object);
        assert(out@ =~= old(out)@ + Self::wire(self@));
    }
}

impl Decode for Location {
    open spec fn parse(b: Seq<u8>, pos: int) -> Result<(Location, int), Fault> {
        match parse_int(b, pos) {
            Err(f) => Err(f),
            Ok((group, mid)) => match parse_int(b, mid) {
                Err(f) => Err(f),
                Ok((object, end)) => Ok((Location { group, object }, end)),
            },
        }
    }

    fn read(src: &[u8], pos: usize) -> (r: Result<(Self, usize), Error>) {
        let (group, mid) = read_int(src, pos, "location group")?;
        let (object, end) = read_int(src, mid, "location object")?;
        Ok((Location { group, object }, end))
    }
}

impl RoundTrip for Location {
    open spec fn canonical(m: Location) -> bool {
        m.group < VARINT_LIMIT && m.object < VARINT_LIMIT
    }

    proof fn lemma_round_trip(m: Location, b: Seq<u8>, pos: int) {
        lemma_holds_at_concat(b, pos, varint_wire(m.group), varint_wire(m.object));
        lemma_int_round_trip(m.group, b, pos);
        lemma_int_round_trip(m.object, b, pos + varint_wire(m.group).len());
    }

    proof fn lemma_parse_canonical(b: Seq<u8>, pos: int) {
        lemma_int_parsed(b, pos);
        lemma_int_parsed(b, end_of(parse_int(b, pos)));
    }
}

/// A key/value pair. The value of a parameter of even type is one
/// variable-length integer, held as its bytes; the value of a parameter of
/// odd type is any bytes, at most 65535 of them. A value of even type may be
/// held in a longer form than the shortest; it is read back in the shortest.
#[derive(Debug, PartialEq, Eq, Clone)]
pub struct Parameter {
    pub parameter_type: u64,
    pub value: Vec<u8>,
}

/// The model of a [`Parameter`].
pub struct ParameterView {
    pub parameter_type: u64,
    pub value: Seq<u8>,
}

impl View for Parameter {
    type V = ParameterView;

    open spec fn view(&self) -> ParameterView {
        ParameterView { parameter_type: self.parameter_type, value: self.value@ }
    }
}

/// Whether `w` is the shortest encoding of an integer.
pub open spec fn is_shortest_varint(w: Seq<u8>) -> bool {
    parse_varint(w, 0) matches Some((v, _)) && varint_wire(v) == w
}

/// The shortest encoding of an integer is one variable-length integer.
pub proof fn lemma_shortest_is_varint(w: Seq<u8>)
    requires
        is_shortest_varint(w),
    ensures
        is_varint(w),
{
    let v = parse_varint(w, 0).unwrap().0;
    lemma_varint_shortest(w, 0);
    assert(holds_at(w, 0, varint_wire(v))) by {
        reveal(holds_at);
        assert(w.subrange(0, w.len() as int) =~= w);
    }
    lemma_varint_round_trip(w, 0, v);
}

/// A parameter travels as its type, then its value: as it stands where the
/// type is even, behind its length where the type is odd.
impl Encode for Parameter {
    open spec fn wire(m: ParameterView) -> Seq<u8> {
        if m.parameter_type % 2 == 0 {
            varint_wire(m.parameter_type) + m.value
        } else {
            varint_wire(m.parameter_type) + (varint_wire(m.value.len() as u64) + m.value)
        }
    }

    open spec fn refusal(m: ParameterView) -> Option<Fault> {
        range_refusal(m.parameter_type as int).otherwise(
            if m.parameter_type % 2 == 0 {
                rule(is_varint(m.value))
            } else {
                rule(m.value.len() <= MAX_PARAMETER_LENGTH)
            },
        )
    }

    fn check(&self) -> (r: Result<(), Error>) {
        check_int(self.parameter_type)?;
        if self.parameter_type % 2 == 0 {
            check_rule(holds_varint(self.value.as_slice()), "invalid varint parameter value")
        } else {
            check_rule(
                self.value.len() as u64 <= MAX_PARAMETER_LENGTH,
                "parameter value length exceeded",
            )
        }
    }

    fn write(&self, out: &mut Vec<u8>) {
        write_int(out, self.parameter_type);
        if self.parameter_type % 2 != 0 {
            write_int(out, self.value.len() as u64);
        }
        write_bytes(out, self.value.as_slice());
        assert(out@ =~= old(out)@ + Self::wire(self@));
    }
}

impl Decode for Parameter {
    open spec fn parse(b: Seq<u8>, pos: int) -> Result<(ParameterView, int), Fault> {
        match parse_int(b, pos) {
            Err(f) => Err(f),
            Ok((parameter_type, mid)) => if parameter_type % 2 == 0 {
                match parse_int(b, mid) {
                    Err(f) => Err(f),
                    Ok((v, end)) => Ok(
                        (ParameterView { parameter_type, value: varint_wire(v) }, end),
                    ),
                }
            } else {
                match parse_int(b, mid) {
                    Err(f) => Err(f),
                    Ok((len, start)) => if len > MAX_PARAMETER_LENGTH {
                        Err(Fault::ProtocolViolation)
                    } else if b.len() - start < len {
                        Err(Fault::UnexpectedEof)
                    } else {
                        Ok(
                            (
                                ParameterView {
                                    parameter_type,
                                    value: b.subrange(start, start + len),
                                },
                                start + len,
                            ),
                        )
                    },
                }
            },
        }
    }

    fn read(src: &[u8], pos: usize) -> (r: Result<(Self, usize), Error>) {
        let (parameter_type, mid) = read_int(src, pos, "parameter type")?;
        if parameter_type % 2 == 0 {
            let (v, end) = read_int(src, mid, "parameter value")?;
            proof {
                lemma_varint_shortest(src@, mid as int);
            }
            let mut value: Vec<u8> = Vec::new();
            write_int(&mut value, v);
            assert(value@ =~= varint_wire(v));
            Ok((Parameter { parameter_type, value }, end))
        } else {
            let (len, start) = read_int(src, mid, "parameter len")?;
            if len > MAX_PARAMETER_LENGTH {
                return Err(Error::violation("parameter value length exceeded"));
            }
            if ((src.len() - start) as u64) < len {
                return Err(Error::unexpected_eof("parameter value"));
            }
            let end: usize = start + len as usize;
            let value = slice_to_vec(slice_subrange(src, start, end));
            Ok((Parameter { parameter_type, value }, end))
        }
    }
}

impl RoundTrip for Parameter {
    open spec fn canonical(m: ParameterView) -> bool {
        &&& m.parameter_type < VARINT_LIMIT
        &&& if m.parameter_type % 2 == 0 {
            is_shortest_varint(m.value)
        } else {
            m.value.len() <= MAX_PARAMETER_LENGTH
        }
    }

    proof fn lemma_round_trip(m: ParameterView, b: Seq<u8>, pos: int) {
        reveal(holds_at);
        let head = varint_wire(m.parameter_type);
        if m.parameter_type % 2 == 0 {
            let v = parse_varint(m.value, 0).unwrap().0;
            lemma_shortest_is_varint(m.value);
            lemma_varint_shortest(m.value, 0);
            lemma_holds_at_concat(b, pos, head, m.value);
            lemma_int_round_trip(m.parameter_type, b, pos);
            lemma_int_round_trip(v, b, pos + head.len());
        } else {
            let len = varint_wire(m.value.len() as u64);
            lemma_holds_at_concat(b, pos, head, len + m.value);
            lemma_holds_at_concat(b, pos + head.len(), len, m.value);
            lemma_int_round_trip(m.parameter_type, b, pos);
            lemma_int_round_trip(m.value.len() as u64, b, pos + head.len());
        }
    }

    proof fn lemma_parse_canonical(b: Seq<u8>, pos: int) {
        lemma_int_parsed(b, pos);
        let mid = end_of(parse_int(b, pos));
        lemma_int_parsed(b, mid);
        if value_of(parse_int(b, pos)) % 2 == 0 {
            let v = value_of(parse_int(b, mid));
            let w = varint_wire(v);
            assert(holds_at(w, 0, w)) by {
                reveal(holds_at);
                assert(w.subrange(0, w.len() as int) =~= w);
            }
            lemma_varint_round_trip(w, 0, v);
        }
    }
}

} // verus!
