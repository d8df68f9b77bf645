//! Counted lists: the number of items, then the items in order.

use vstd::prelude::*;
use crate::codec::{Encode, Decode, RoundTrip, views};
use crate::codec::field::{
    InOrder, value_of, end_of, range_refusal, rule, parse_int, read_int, check_int, check_rule,
    write_int, lemma_holds_at_concat, lemma_int_parsed, lemma_int_round_trip,
};
use crate::codec::varint::{VARINT_LIMIT, varint_wire, holds_at};
use crate::error::{Error, Fault};

verus! {

/// The bytes of the items of a list, one after another.
pub open spec fn list_body<T: Encode>(items: Seq<T::V>) -> Seq<u8>
    decreases items.len(),
{
    if items.len() == 0 {
        Seq::<u8>::empty()
    } else {
        list_body::<T>(items.drop_last()) + T::wire(items.last())
    }
}

/// A list travels as the number of its items, then the items in order.
pub open spec fn list_wire<T: Encode>(items: Seq<T::V>) -> Seq<u8> {
    varint_wire(items.len() as u64) + list_body::<T>(items)
}

/// The refusal of the first item of a list that is refused.
pub open spec fn items_refusal<T: Encode>(items: Seq<T::V>) -> Option<Fault>
    decreases items.len(),
{
    if items.len() == 0 {
        None
    } else {
        items_refusal::<T>(items.drop_last()).otherwise(T::refusal(items.last()))
    }
}

/// Why a list cannot be written: it has too many items to count, or one of
/// its items is refused.
pub open spec fn list_refusal<T: Encode>(items: Seq<T::V>) -> Option<Fault> {
    range_refusal(items.len() as int).otherwise(items_refusal::<T>(items))
}

/// Why a list that must have `min` to `max` items cannot be written.
pub open spec fn list_refusal_within<T: Encode>(items: Seq<T::V>, min: u64, max: u64) -> Option<
    Fault,
> {
    rule(min <= items.len() <= max).otherwise(list_refusal::<T>(items))
}

/// Reads `n` items, one after another, from `pos` on.
pub open spec fn parse_items<T: Decode>(b: Seq<u8>, pos: int, n: nat) -> Result<
    (Seq<T::V>, int),
    Fault,
>
    decreases n,
{
    if n == 0 {
        Ok((Seq::<T::V>::empty(), pos))
    } else {
        match parse_items::<T>(b, pos, (n - 1) as nat) {
            Err(f) => Err(f),
            Ok((head, mid)) => match T::parse(b, mid) {
                Err(f) => Err(f),
                Ok((item, end)) => Ok((head.push(item), end)),
            },
        }
    }
}

/// Reads a count and then that many items.
pub open spec fn parse_list<T: Decode>(b: Seq<u8>, pos: int) -> Result<(Seq<T::V>, int), Fault> {
    match parse_int(b, pos) {
        Err(f) => Err(f),
        Ok((n, start)) => parse_items::<T>(b, start, n as nat),
    }
}

/// Reads a count that must lie between `min` and `max`, and then that many
/// items. A count outside the bounds is refused before any item is read.
pub open spec fn parse_list_within<T: Decode>(b: Seq<u8>, pos: int, min: u64, max: u64) -> Result<
    (Seq<T::V>, int),
    Fault,
> {
    match parse_int(b, pos) {
        Err(f) => Err(f),
        Ok((n, start)) => if min <= n <= max {
            parse_items::<T>(b, start, n as nat)
        } else {
            Err(Fault::ProtocolViolation)
        },
    }
}

/// Whether every item of a list is canonical.
pub open spec fn all_canonical<T: RoundTrip>(items: Seq<T::V>) -> bool {
    forall|i: int| 0 <= i < items.len() ==> T::canonical(#[trigger] items[i])
}

/// Once an item cannot be read, no longer list can be.
pub proof fn lemma_items_fail_on<T: Decode>(b: Seq<u8>, pos: int, k: nat, n: nat)
    requires
        k <= n,
        parse_items::<T>(b, pos, k) is Err,
    ensures
        parse_items::<T>(b, pos, n) == parse_items::<T>(b, pos, k),
    decreases n,
{
    if n > k {
        lemma_items_fail_on::<T>(b, pos, k, (n - 1) as nat);
    }
}

/// A list that has a refused item among its first `k` is refused for the
/// first of them.
pub proof fn lemma_refusal_stays<T: Encode>(items: Seq<T::V>, k: int)
    requires
        0 <= k <= items.len(),
        items_refusal::<T>(items.take(k)) is Some,
    ensures
        items_refusal::<T>(items) == items_refusal::<T>(items.take(k)),
    decreases items.len() - k,
{
    if k < items.len() {
        assert(items.take(k + 1).drop_last() =~= items.take(k));
        lemma_refusal_stays::<T>(items, k + 1);
    } else {
        assert(items.take(k) =~= items);
    }
}

/// No item among the first `k` of a list that is not refused is refused.
pub proof fn lemma_no_refusal_within<T: Encode>(items: Seq<T::V>, k: int)
    requires
        0 <= k <= items.len(),
        items_refusal::<T>(items) is None,
    ensures
        items_refusal::<T>(items.take(k)) is None,
{
    if items_refusal::<T>(items.take(k)) is Some {
        lemma_refusal_stays::<T>(items, k);
    }
}

/// The items of a list whose bytes stand at their place read as the list.
pub proof fn lemma_items_round_trip<T: RoundTrip>(items: Seq<T::V>, b: Seq<u8>, pos: int)
    requires
        all_canonical::<T>(items),
        holds_at(b, pos, list_body::<T>(items)),
    ensures
        items_refusal::<T>(items) is None,
        parse_items::<T>(b, pos, items.len()) == Ok::<(Seq<T::V>, int), Fault>(
            (items, pos + list_body::<T>(items).len()),
        ),
    decreases items.len(),
{
    if items.len() > 0 {
        let head = items.drop_last();
        let last = items.last();
        lemma_holds_at_concat(b, pos, list_body::<T>(head), T::wire(last));
        lemma_items_round_trip::<T>(head, b, pos);
        T::lemma_round_trip(last, b, pos + list_body::<T>(head).len());
        assert(head.push(last) =~= items);
        assert((items.len() - 1) as nat == head.len());
    } else {
        assert(items =~= Seq::<T::V>::empty());
    }
}

/// A list of canonical items that is short enough to count is not refused,
/// and its bytes read as the list.
pub proof fn lemma_list_round_trip<T: RoundTrip>(items: Seq<T::V>, b: Seq<u8>, pos: int)
    requires
        all_canonical::<T>(items),
        items.len() < VARINT_LIMIT,
        holds_at(b, pos, list_wire::<T>(items)),
    ensures
        list_refusal::<T>(items) is None,
        parse_list::<T>(b, pos) == Ok::<(Seq<T::V>, int), Fault>(
            (items, pos + list_wire::<T>(items).len()),
        ),
{
    let head = varint_wire(items.len() as u64);
    lemma_holds_at_concat(b, pos, head, list_body::<T>(items));
    lemma_int_round_trip(items.len() as u64, b, pos);
    lemma_items_round_trip::<T>(items, b, pos + head.len());
}

/// The same of a list whose count is bounded, where the count is within the
/// bounds.
pub proof fn lemma_list_within_round_trip<T: RoundTrip>(
    items: Seq<T::V>,
    min: u64,
    max: u64,
    b: Seq<u8>,
    pos: int,
)
    requires
        all_canonical::<T>(items),
        items.len() < VARINT_LIMIT,
        min <= items.len() <= max,
        holds_at(b, pos, list_wire::<T>(items)),
    ensures
        list_refusal_within::<T>(items, min, max) is None,
        parse_list_within::<T>(b, pos, min, max) == Ok::<(Seq<T::V>, int), Fault>(
            (items, pos + list_wire::<T>(items).len()),
        ),
{
    let head = varint_wire(items.len() as u64);
    lemma_holds_at_concat(b, pos, head, list_body::<T>(items));
    lemma_int_round_trip(items.len() as u64, b, pos);
    lemma_items_round_trip::<T>(items, b, pos + head.len());
}

/// Items that were read are canonical, as many as were asked for, and end
/// within the bytes.
pub proof fn lemma_items_parsed<T: RoundTrip>(b: Seq<u8>, pos: int, n: nat)
    requires
        0 <= pos <= b.len(),
        parse_items::<T>(b, pos, n) is Ok,
    ensures
        all_canonical::<T>(value_of(parse_items::<T>(b, pos, n))),
        value_of(parse_items::<T>(b, pos, n)).len() == n,
        pos <= end_of(parse_items::<T>(b, pos, n)) <= b.len(),
    decreases n,
{
    if n > 0 {
        let head = parse_items::<T>(b, pos, (n - 1) as nat);
        lemma_items_parsed::<T>(b, pos, (n - 1) as nat);
        T::lemma_parse_canonical(b, end_of(head));
    }
}

/// A list that was read is short enough to count and holds canonical items,
/// and ends within the bytes.
pub proof fn lemma_list_parsed<T: RoundTrip>(b: Seq<u8>, pos: int)
    requires
        parse_list::<T>(b, pos) is Ok,
    ensures
        all_canonical::<T>(value_of(parse_list::<T>(b, pos))),
        value_of(parse_list::<T>(b, pos)).len() < VARINT_LIMIT,
        pos <= end_of(parse_list::<T>(b, pos)) <= b.len(),
{
    lemma_int_parsed(b, pos);
    lemma_items_parsed::<T>(
        b,
        end_of(parse_int(b, pos)),
        value_of(parse_int(b, pos)) as nat,
    );
}

/// The same of a list whose count is bounded; its count is within the
/// bounds.
pub proof fn lemma_list_within_parsed<T: RoundTrip>(b: Seq<u8>, pos: int, min: u64, max: u64)
    requires
        parse_list_within::<T>(b, pos, min, max) is Ok,
    ensures
        all_canonical::<T>(value_of(parse_list_within::<T>(b, pos, min, max))),
        min <= value_of(parse_list_within::<T>(b, pos, min, max)).len() <= max,
        value_of(parse_list_within::<T>(b, pos, min, max)).len() < VARINT_LIMIT,
        pos <= end_of(parse_list_within::<T>(b, pos, min, max)) <= b.len(),
{
    lemma_int_parsed(b, pos);
    lemma_items_parsed::<T>(
        b,
        end_of(parse_int(b, pos)),
        value_of(parse_int(b, pos)) as nat,
    );
}

/// Tests the items of a list against the grammar, one by one.
fn check_items<T: Encode>(items: &Vec<T>) -> (r: Result<(), Error>)
    ensures
        match items_refusal::<T>(views(items@)) {
            None => r is Ok,
            Some(f) => r matches Err(e) && e.fault() == Some(f),
        },
{
    let mut i: usize = 0;
    while i < items.len()
        invariant
            i <= items@.len(),
            items_refusal::<T>(views(items@).take(i as int)) is None,
        decreases items@.len() - i,
    {
        let ghost done = views(items@).take(i as int);
        let ghost next = views(items@).take(i + 1);
        proof {
            assert(next.drop_last() =~= done);
            assert(next.last() == items@[i as int]@);
        }
        match items[i].check() {
            Ok(()) => {},
            Err(e) => {
                proof {
                    assert(items_refusal::<T>(next) == T::refusal(items@[i as int]@));
                    lemma_refusal_stays::<T>(views(items@), i + 1);
                }
                return Err(e);
            },
        }
        i += 1;
    }
    proof {
        assert(views(items@).take(i as int) =~= views(items@));
    }
    Ok(())
}

/// Tests a list against the grammar.
pub fn check_list<T: Encode>(items: &Vec<T>) -> (r: Result<(), Error>)
    ensures
        match list_refusal::<T>(views(items@)) {
            None => r is Ok,
            Some(f) => r matches Err(e) && e.fault() == Some(f),
        },
{
    check_int(items.len() as u64)?;
    check_items(items)
}

/// Tests a list that must have `min` to `max` items; `reason` names the
/// bounds in the error.
pub fn check_list_within<T: Encode>(items: &Vec<T>, min: u64, max: u64, reason: &str) -> (r:
    Result<(), Error>)
    ensures
        match list_refusal_within::<T>(views(items@), min, max) {
            None => r is Ok,
            Some(f) => r matches Err(e) && e.fault() == Some(f),
        },
{
    check_rule(min <= items.len() as u64 && items.len() as u64 <= max, reason)?;
    check_list(items)
}

/// Appends a list that is not refused.
pub fn write_list<T: Encode>(out: &mut Vec<u8>, items: &Vec<T>)
    requires
        list_refusal::<T>(views(items@)) is None,
    ensures
        final(out)@ == old(out)@ + list_wire::<T>(views(items@)),
{
    write_int(out, items.len() as u64);
    let ghost start = out@;
    let mut i: usize = 0;
    proof {
        assert(list_body::<T>(views(items@).take(0)) =~= Seq::<u8>::empty());
        assert(start + Seq::<u8>::empty() =~= start);
    }
    while i < items.len()
        invariant
            i <= items@.len(),
            items_refusal::<T>(views(items@)) is None,
            out@ == start + list_body::<T>(views(items@).take(i as int)),
        decreases items@.len() - i,
    {
        let ghost done = views(items@).take(i as int);
        let ghost next = views(items@).take(i + 1);
        proof {
            assert(next.drop_last() =~= done);
            assert(next.last() == items@[i as int]@);
            lemma_no_refusal_within::<T>(views(items@), i + 1);
        }
        items[i].write(out);
        proof {
            assert(out@ =~= start + list_body::<T>(next));
        }
        i += 1;
    }
    proof {
        assert(views(items@).take(i as int) =~= views(items@));
        assert(out@ =~= old(out)@ + list_wire::<T>(views(items@)));
    }
}

/// Reads `n` items from `src`, the first at `start`.
fn read_items<T: Decode>(src: &[u8], start: usize, n: u64) -> (r: Result<(Vec<T>, usize), Error>)
    requires
        start <= src@.len(),
    ensures
        match parse_items::<T>(src@, start as int, n as nat) {
            Ok((ms, next)) => r matches Ok((items, end)) && views(items@) == ms && end == next,
            Err(f) => r matches Err(e) && e.fault() == Some(f),
        },
        r matches Ok((_, end)) ==> start <= end <= src@.len(),
{
    let mut items: Vec<T> = Vec::new();
    let mut at: usize = start;
    let mut i: u64 = 0;
    proof {
        assert(views(items@) =~= Seq::<T::V>::empty());
    }
    while i < n
        invariant
            i <= n,
            start <= at <= src@.len(),
            parse_items::<T>(src@, start as int, i as nat) == Ok::<(Seq<T::V>, int), Fault>(
                (views(items@), at as int),
            ),
        decreases n - i,
    {
        let ghost before = views(items@);
        match T::read(src, at) {
            Ok((item, next)) => {
                items.push(item);
                at = next;
                proof {
                    assert(views(items@) =~= before.push(item@));
                }
            },
            Err(e) => {
                proof {
                    assert(((i + 1) as nat - 1) as nat == i as nat);
                    assert(parse_items::<T>(src@, start as int, (i + 1) as nat) is Err);
                    lemma_items_fail_on::<T>(src@, start as int, (i + 1) as nat, n as nat);
                }
                return Err(e);
            },
        }
        i += 1;
    }
    Ok((items, at))
}

/// Reads a count and then that many items from `src` at `pos`.
pub fn read_list<T: Decode>(src: &[u8], pos: usize) -> (r: Result<(Vec<T>, usize), Error>)
    ensures
        match parse_list::<T>(src@, pos as int) {
            Ok((ms, next)) => r matches Ok((items, end)) && views(items@) == ms && end == next,
            Err(f) => r matches Err(e) && e.fault() == Some(f),
        },
        r matches Ok((_, end)) ==> pos <= end <= src@.len(),
{
    let (n, start) = read_int(src, pos, "count")?;
    read_items(src, start, n)
}

/// Reads a count between `min` and `max` and then that many items from `src`
/// at `pos`; `reason` names the bounds in the error.
pub fn read_list_within<T: Decode>(
    src: &[u8],
    pos: usize,
    min: u64,
    max: u64,
    reason: &str,
) -> (r: Result<(Vec<T>, usize), Error>)
    ensures
        match parse_list_within::<T>(src@, pos as int, min, max) {
            Ok((ms, next)) => r matches Ok((items, end)) && views(items@) == ms && end == next,
            Err(f) => r matches Err(e) && e.fault() == Some(f),
        },
        r matches Ok((_, end)) ==> pos <= end <= src@.len(),
{
    let (n, start) = read_int(src, pos, "count")?;
    if !(min <= n && n <= max) {
        return Err(Error::violation(reason));
    }
    read_items(src, start, n)
}

} // verus!
