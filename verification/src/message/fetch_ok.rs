//! FETCH_OK and its payload.

use vstd::prelude::*;
use crate::codec::{Encode, Decode, RoundTrip, views};
use crate::codec::field::{
    InOrder, value_of, end_of, failure, range_refusal, rule, lemma_int_parsed, parse_int,
    parse_byte, parse_flag, read_int, read_byte, read_flag, check_int, check_rule, write_int,
    write_byte, write_flag, flag_wire, lemma_append, lemma_holds_at_concat, lemma_int_round_trip,
    lemma_byte_round_trip, lemma_flag_round_trip,
};
use crate::codec::list::{
    list_wire, list_refusal, parse_list, all_canonical, check_list, write_list, read_list,
    lemma_list_round_trip, lemma_list_parsed,
};
use crate::codec::varint::{VARINT_LIMIT, varint_wire};
use crate::error::{Error, Fault};
use crate::model::{Location, Parameter, ParameterView};

verus! {

/// FETCH_OK: accepts a fetch.
#[derive(Debug, PartialEq, Eq, Clone)]
pub struct FetchOk {
    pub request_id: u64,
    /// 1 (ascending) or 2 (descending).
    pub group_order: u8,
    pub end_of_track: bool,
    pub end_location: Location,
    pub parameters: Vec<Parameter>,
}

/// The model of a [`FetchOk`].
pub struct FetchOkView {
    pub request_id: u64,
    pub group_order: u8,
    pub end_of_track: bool,
    pub end_location: Location,
    pub parameters: Seq<ParameterView>,
}

impl View for FetchOk {
    type V = FetchOkView;

    open spec fn view(&self) -> FetchOkView {
        FetchOkView {
            request_id: self.request_id,
            group_order: self.group_order,
            end_of_track: self.end_of_track,
            end_location: self.end_location@,
            parameters: views(self.parameters@),
        }
    }
}

impl Encode for FetchOk {
    open spec fn wire(m: FetchOkView) -> Seq<u8> {
        varint_wire(m.request_id)
            + seq![m.group_order]
            + flag_wire(m.end_of_track)
            + Location::wire(m.end_location)
            + list_wire::<Parameter>(m.parameters)
    }

    open spec fn refusal(m: FetchOkView) -> Option<Fault> {
        range_refusal(m.request_id as int)
            .otherwise(rule(1 <= m.group_order && m.group_order <= 2))
            .otherwise(Location::refusal(m.end_location))
            .otherwise(list_refusal::<Parameter>(m.parameters))
    }

    fn check(&self) -> (r: Result<(), Error>) {
        check_int(self.request_id)?;
        check_rule(1 <= self.group_order && self.group_order <= 2, "invalid group order")?;
        self.end_location.check()?;
        check_list(&self.parameters)
    }

    fn write(&self, out: &mut Vec<u8>) {
        let ghost base = out@;
        let ghost m = self@;
        let ghost w0 = varint_wire(m.request_id);
        let ghost w1 = w0 + seq![m.group_order];
        let ghost w2 = w1 + flag_wire(m.end_of_track);
        let ghost w3 = w2 + Location::wire(m.end_location);
        write_int(out, self.request_id);
        write_byte(out, self.group_order);
        proof {
            lemma_append(base, w0, seq![m.group_order]);
        }
        write_flag(out, self.end_of_track);
        proof {
            lemma_append(base, w1, flag_wire(m.end_of_track));
        }
        self.end_location.write(out);
        proof {
            lemma_append(base, w2, Location::wire(m.end_location));
        }
        write_list(out, &self.parameters);
        proof {
            lemma_append(base, w3, list_wire::<Parameter>(m.parameters));
        }
    }
}

impl Decode for FetchOk {
    open spec fn parse(b: Seq<u8>, pos: int) -> Result<(FetchOkView, int), Fault> {
        let request_id = parse_int(b, pos);
        let group_order = parse_byte(b, end_of(request_id));
        let end_of_track = parse_flag(b, end_of(group_order));
        let end_location = Location::parse(b, end_of(end_of_track));
        let parameters = parse_list::<Parameter>(b, end_of(end_location));
        let fault =
            failure(request_id)
                .otherwise(failure(group_order))
                .otherwise(rule(1 <= value_of(group_order) && value_of(group_order) <= 2))
                .otherwise(failure(end_of_track))
                .otherwise(failure(end_location))
                .otherwise(failure(parameters));
        match fault {
            Some(f) => Err(f),
            None => Ok(
                (
                    FetchOkView {
                        request_id: value_of(request_id),
                        group_order: value_of(group_order),
                        end_of_track: value_of(end_of_track),
                        end_location: value_of(end_location),
                        parameters: value_of(parameters),
                    },
                    end_of(parameters),
                ),
            ),
        }
    }

    fn read(src: &[u8], pos: usize) -> (r: Result<(Self, usize), Error>) {
        let (request_id, at) = read_int(src, pos, "request id")?;
        let (group_order, at) = read_byte(src, at, "group order")?;
        if !(1 <= group_order && group_order <= 2) {
            return Err(Error::violation("invalid group order"));
        }
        let (end_of_track, at) = read_flag(src, at, "end of track")?;
        let (end_location, at) = Location::read(src, at)?;
        let (parameters, at) = read_list::<Parameter>(src, at)?;
        Ok((FetchOk { request_id, group_order, end_of_track, end_location, parameters }, at))
    }
}

impl RoundTrip for FetchOk {
    open spec fn canonical(m: FetchOkView) -> bool {
        &&& m.request_id < VARINT_LIMIT
        &&& 1 <= m.group_order && m.group_order <= 2
        &&& Location::canonical(m.end_location)
        &&& m.parameters.len() < VARINT_LIMIT
        &&& all_canonical::<Parameter>(m.parameters)
    }

    proof fn lemma_round_trip(m: FetchOkView, b: Seq<u8>, pos: int) {
        let f0 = varint_wire(m.request_id);
        let f1 = seq![m.group_order];
        let f2 = flag_wire(m.end_of_track);
        let f3 = Location::wire(m.end_location);
        let f4 = list_wire::<Parameter>(m.parameters);
        let w1 = f0 + f1;
        let w2 = w1 + f2;
        let w3 = w2 + f3;
        lemma_holds_at_concat(b, pos, w3, f4);
        lemma_holds_at_concat(b, pos, w2, f3);
        lemma_holds_at_concat(b, pos, w1, f2);
        lemma_holds_at_concat(b, pos, f0, f1);
        lemma_int_round_trip(m.request_id, b, pos);
        lemma_byte_round_trip(m.group_order, b, pos + f0.len());
        lemma_flag_round_trip(m.end_of_track, b, pos + w1.len());
        Location::lemma_round_trip(m.end_location, b, pos + w2.len());
        lemma_list_round_trip::<Parameter>(m.parameters, b, pos + w3.len());
    }

    proof fn lemma_parse_canonical(b: Seq<u8>, pos: int) {
        let request_id = parse_int(b, pos);
        let group_order = parse_byte(b, end_of(request_id));
        let end_of_track = parse_flag(b, end_of(group_order));
        let end_location = Location::parse(b, end_of(end_of_track));
        lemma_int_parsed(b, pos);
        Location::lemma_parse_canonical(b, end_of(end_of_track));
        lemma_list_parsed::<Parameter>(b, end_of(end_location));
    }
}

} // verus!
