//! TRACK_STATUS and its payload.

use vstd::prelude::*;
use crate::codec::{Encode, Decode, RoundTrip, views};
use crate::codec::field::{
    InOrder, value_of, end_of, failure, range_refusal, rule, lemma_int_parsed, parse_int, read_int,
    check_int, check_rule, write_int, lemma_append, lemma_holds_at_concat, lemma_int_round_trip,
};
use crate::codec::list::{
    list_wire, list_refusal, parse_list, all_canonical, check_list, write_list, read_list,
    lemma_list_round_trip, lemma_list_parsed,
};
use crate::codec::varint::{VARINT_LIMIT, varint_wire};
use crate::error::{Error, Fault};
use crate::model::{Location, Parameter, ParameterView};

verus! {

/// Whether a track of this status has no content: it does not exist (1) or
/// has not begun (2).
pub open spec fn spec_has_no_content(status_code: u64) -> bool {
    status_code == 1 || status_code == 2
}

/// Whether a track of this status has no content: it does not exist (1) or
/// has not begun (2).
#[verifier::when_used_as_spec(spec_has_no_content)]
pub fn has_no_content(status_code: u64) -> (r: bool)
    ensures
        r == spec_has_no_content(status_code),
{
    status_code == 1 || status_code == 2
}


/// TRACK_STATUS: the state of a track. Under status 1 (the track does
/// not exist) and 2 (it has not begun) the largest location is (0, 0)
/// and there are no parameters.
#[derive(Debug, PartialEq, Eq, Clone)]
pub struct TrackStatus {
    pub request_id: u64,
    /// 0 to 4.
    pub status_code: u64,
    pub largest_location: Location,
    pub parameters: Vec<Parameter>,
}

/// The model of a [`TrackStatus`].
pub struct TrackStatusView {
    pub request_id: u64,
    pub status_code: u64,
    pub largest_location: Location,
    pub parameters: Seq<ParameterView>,
}

impl View for TrackStatus {
    type V = TrackStatusView;

    open spec fn view(&self) -> TrackStatusView {
        TrackStatusView {
            request_id: self.request_id,
            status_code: self.status_code,
            largest_location: self.largest_location@,
            parameters: views(self.parameters@),
        }
    }
}

impl Encode for TrackStatus {
    open spec fn wire(m: TrackStatusView) -> Seq<u8> {
        varint_wire(m.request_id)
            + varint_wire(m.status_code)
            + Location::wire(m.largest_location)
            + list_wire::<Parameter>(m.parameters)
    }

    open spec fn refusal(m: TrackStatusView) -> Option<Fault> {
        range_refusal(m.request_id as int)
            .otherwise(rule(m.status_code <= 4))
            .otherwise(Location::refusal(m.largest_location))
            .otherwise(list_refusal::<Parameter>(m.parameters))
            .otherwise(rule(!has_no_content(m.status_code) || m.largest_location.is_origin()))
            .otherwise(rule(!has_no_content(m.status_code) || m.parameters.len() == 0))
    }

    fn check(&self) -> (r: Result<(), Error>) {
        check_int(self.request_id)?;
        check_rule(self.status_code <= 4, "invalid status code")?;
        self.largest_location.check()?;
        check_list(&self.parameters)?;
        check_rule(
            !has_no_content(self.status_code) || self.largest_location.is_origin(),
            "largest location must be zero",
        )?;
        check_rule(
            !has_no_content(self.status_code) || self.parameters.len() == 0,
            "parameters must be empty",
        )
    }

    fn write(&self, out: &mut Vec<u8>) {
        let ghost base = out@;
        let ghost m = self@;
        let ghost w0 = varint_wire(m.request_id);
        let ghost w1 = w0 + varint_wire(m.status_code);
        let ghost w2 = w1 + Location::wire(m.largest_location);
        write_int(out, self.request_id);
        write_int(out, self.status_code);
        proof {
            lemma_append(base, w0, varint_wire(m.status_code));
        }
        self.largest_location.write(out);
        proof {
            lemma_append(base, w1, Location::wire(m.largest_location));
        }
        write_list(out, &self.parameters);
        proof {
            lemma_append(base, w2, list_wire::<Parameter>(m.parameters));
        }
    }
}

impl Decode for TrackStatus {
    open spec fn parse(b: Seq<u8>, pos: int) -> Result<(TrackStatusView, int), Fault> {
        let request_id = parse_int(b, pos);
        let status_code = parse_int(b, end_of(request_id));
        let largest_location = Location::parse(b, end_of(status_code));
        let parameters = parse_list::<Parameter>(b, end_of(largest_location));
        let fault =
            failure(request_id)
                .otherwise(failure(status_code))
                .otherwise(rule(value_of(status_code) <= 4))
                .otherwise(failure(largest_location))
                .otherwise(failure(parameters))
                .otherwise(
                    rule(
                        !has_no_content(value_of(status_code))
                            || value_of(largest_location).is_origin()
                    ),
                )
                .otherwise(
                    rule(!has_no_content(value_of(status_code)) || value_of(parameters).len() == 0),
                );
        match fault {
            Some(f) => Err(f),
            None => Ok(
                (
                    TrackStatusView {
                        request_id: value_of(request_id),
                        status_code: value_of(status_code),
                        largest_location: value_of(largest_location),
                        parameters: value_of(parameters),
                    },
                    end_of(parameters),
                ),
            ),
        }
    }

    fn read(src: &[u8], pos: usize) -> (r: Result<(Self, usize), Error>) {
        let (request_id, at) = read_int(src, pos, "request id")?;
        let (status_code, at) = read_int(src, at, "status code")?;
        if !(status_code <= 4) {
            return Err(Error::violation("invalid status code"));
        }
        let (largest_location, at) = Location::read(src, at)?;
        let (parameters, at) = read_list::<Parameter>(src, at)?;
        if !(!has_no_content(status_code) || largest_location.is_origin()) {
            return Err(Error::violation("largest location must be zero"));
        }
        if !(!has_no_content(status_code) || parameters.len() == 0) {
            return Err(Error::violation("parameters must be empty"));
        }
        Ok((TrackStatus { request_id, status_code, largest_location, parameters }, at))
    }
}

impl RoundTrip for TrackStatus {
    open spec fn canonical(m: TrackStatusView) -> bool {
        &&& m.request_id < VARINT_LIMIT
        &&& m.status_code <= 4
        &&& Location::canonical(m.largest_location)
        &&& m.parameters.len() < VARINT_LIMIT
        &&& all_canonical::<Parameter>(m.parameters)
        &&& !has_no_content(m.status_code) || m.largest_location.is_origin()
        &&& !has_no_content(m.status_code) || m.parameters.len() == 0
    }

    proof fn lemma_round_trip(m: TrackStatusView, b: Seq<u8>, pos: int) {
        let f0 = varint_wire(m.request_id);
        let f1 = varint_wire(m.status_code);
        let f2 = Location::wire(m.largest_location);
        let f3 = list_wire::<Parameter>(m.parameters);
        let w1 = f0 + f1;
        let w2 = w1 + f2;
        lemma_holds_at_concat(b, pos, w2, f3);
        lemma_holds_at_concat(b, pos, w1, f2);
        lemma_holds_at_concat(b, pos, f0, f1);
        lemma_int_round_trip(m.request_id, b, pos);
        lemma_int_round_trip(m.status_code, b, pos + f0.len());
        Location::lemma_round_trip(m.largest_location, b, pos + w1.len());
        lemma_list_round_trip::<Parameter>(m.parameters, b, pos + w2.len());
    }

    proof fn lemma_parse_canonical(b: Seq<u8>, pos: int) {
        let request_id = parse_int(b, pos);
        let status_code = parse_int(b, end_of(request_id));
        let largest_location = Location::parse(b, end_of(status_code));
        lemma_int_parsed(b, pos);
        lemma_int_parsed(b, end_of(request_id));
        Location::lemma_parse_canonical(b, end_of(status_code));
        lemma_list_parsed::<Parameter>(b, end_of(largest_location));
    }
}

} // verus!
