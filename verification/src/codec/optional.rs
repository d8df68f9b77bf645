//! Fields that the wire carries only where an earlier field says so.

use vstd::prelude::*;
use crate::codec::{Encode, Decode, RoundTrip};
use crate::codec::field::{value_of, end_of};
use crate::codec::varint::holds_at;
use crate::error::{Error, Fault};

verus! {

/// The model of a value that may be absent.
pub open spec fn opt_view<T: View>(value: Option<T>) -> Option<T::V> {
    match value {
        Some(v) => Some(v@),
        None => None,
    }
}

/// The bytes of a field that the wire carries only where `carried` holds.
pub open spec fn opt_wire<T: Encode>(carried: bool, value: Option<T::V>) -> Seq<u8> {
    match value {
        Some(v) if carried => T::wire(v),
        _ => Seq::<u8>::empty(),
    }
}

/// Why such a field cannot be written: the wire carries it and it is absent,
/// or it is itself refused. A value that the wire does not carry is ignored.
pub open spec fn opt_refusal<T: Encode>(carried: bool, value: Option<T::V>) -> Option<Fault> {
    if carried {
        match value {
            Some(v) => T::refusal(v),
            None => Some(Fault::ProtocolViolation),
        }
    } else {
        None
    }
}

/// Reads such a field: a value where the wire carries one, nothing otherwise.
pub open spec fn parse_opt<T: Decode>(carried: bool, b: Seq<u8>, pos: int) -> Result<
    (Option<T::V>, int),
    Fault,
> {
    if carried {
        match T::parse(b, pos) {
            Err(f) => Err(f),
            Ok((v, next)) => Ok((Some(v), next)),
        }
    } else {
        Ok((None, pos))
    }
}

/// Whether such a field is present exactly where the wire carries it, and
/// canonical where it is present.
pub open spec fn opt_canonical<T: RoundTrip>(carried: bool, value: Option<T::V>) -> bool {
    match value {
        Some(v) => carried && T::canonical(v),
        None => !carried,
    }
}

/// Tests such a field; `missing` names it in the error for its absence.
pub fn check_opt<T: Encode>(carried: bool, value: &Option<T>, missing: &str) -> (r: Result<
    (),
    Error,
>)
    ensures
        match opt_refusal::<T>(carried, opt_view(*value)) {
            None => r is Ok,
            Some(f) => r matches Err(e) && e.fault() == Some(f),
        },
{
    if carried {
        match value {
            Some(v) => v.check(),
            None => Err(Error::violation(missing)),
        }
    } else {
        Ok(())
    }
}

/// Appends such a field where the wire carries it.
pub fn write_opt<T: Encode>(out: &mut Vec<u8>, carried: bool, value: &Option<T>)
    requires
        opt_refusal::<T>(carried, opt_view(*value)) is None,
    ensures
        final(out)@ == old(out)@ + opt_wire::<T>(carried, opt_view(*value)),
{
    if carried {
        match value {
            Some(v) => {
                v.write(out);
            },
            None => {},
        }
    } else {
        assert(out@ =~= old(out)@ + Seq::<u8>::empty());
    }
}

/// Reads such a field from `src` at `pos`.
pub fn read_opt<T: Decode>(carried: bool, src: &[u8], pos: usize) -> (r: Result<
    (Option<T>, usize),
    Error,
>)
    requires
        pos <= src@.len(),
    ensures
        match parse_opt::<T>(carried, src@, pos as int) {
            Ok((m, next)) => r matches Ok((v, end)) && opt_view(v) == m && end == next,
            Err(f) => r matches Err(e) && e.fault() == Some(f),
        },
        r matches Ok((_, end)) ==> pos <= end <= src@.len(),
{
    if carried {
        let (v, next) = T::read(src, pos)?;
        Ok((Some(v), next))
    } else {
        Ok((None, pos))
    }
}

/// Such a field, where canonical, is not refused and reads as itself.
pub proof fn lemma_opt_round_trip<T: RoundTrip>(
    carried: bool,
    value: Option<T::V>,
    b: Seq<u8>,
    pos: int,
)
    requires
        opt_canonical::<T>(carried, value),
        holds_at(b, pos, opt_wire::<T>(carried, value)),
    ensures
        opt_refusal::<T>(carried, value) is None,
        parse_opt::<T>(carried, b, pos) == Ok::<(Option<T::V>, int), Fault>(
            (value, pos + opt_wire::<T>(carried, value).len()),
        ),
{
    if carried {
        T::lemma_round_trip(value.unwrap(), b, pos);
    }
}

/// Such a field, as it was read, is canonical and ends within the bytes.
pub proof fn lemma_opt_parsed<T: RoundTrip>(carried: bool, b: Seq<u8>, pos: int)
    requires
        0 <= pos <= b.len(),
        parse_opt::<T>(carried, b, pos) is Ok,
    ensures
        opt_canonical::<T>(carried, value_of(parse_opt::<T>(carried, b, pos))),
        pos <= end_of(parse_opt::<T>(carried, b, pos)) <= b.len(),
{
    if carried {
        T::lemma_parse_canonical(b, pos);
    }
}

} // verus!
