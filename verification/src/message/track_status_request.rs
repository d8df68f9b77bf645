//! TRACK_STATUS_REQUEST and its payload.

use vstd::prelude::*;
use crate::codec::{Encode, Decode, RoundTrip, views};
use crate::codec::field::{
    InOrder, value_of, end_of, failure, range_refusal, lemma_int_parsed, parse_int, read_int,
    check_int, write_int, lemma_append, lemma_holds_at_concat, lemma_int_round_trip,
};
use crate::codec::list::{
    list_wire, list_refusal, parse_list, all_canonical, check_list, write_list, read_list,
    lemma_list_round_trip, lemma_list_parsed,
};
use crate::codec::varint::{VARINT_LIMIT, varint_wire};
use crate::error::{Error, Fault};
use crate::model::{Parameter, ParameterView};

verus! {

/// TRACK_STATUS_REQUEST: asks for the state of a track.
#[derive(Debug, PartialEq, Eq, Clone)]
pub struct TrackStatusRequest {
    pub request_id: u64,
    pub track_namespace: u64,
    pub track_name: String,
    pub parameters: Vec<Parameter>,
}

/// The model of a [`TrackStatusRequest`].
pub struct TrackStatusRequestView {
    pub request_id: u64,
    pub track_namespace: u64,
    pub track_name: Seq<char>,
    pub parameters: Seq<ParameterView>,
}

impl View for TrackStatusRequest {
    type V = TrackStatusRequestView;

    open spec fn view(&self) -> TrackStatusRequestView {
        TrackStatusRequestView {
            request_id: self.request_id,
            track_namespace: self.track_namespace,
            track_name: self.track_name@,
            parameters: views(self.parameters@),
        }
    }
}

impl Encode for TrackStatusRequest {
    open spec fn wire(m: TrackStatusRequestView) -> Seq<u8> {
        varint_wire(m.request_id)
            + varint_wire(m.track_namespace)
            + String::wire(m.track_name)
            + list_wire::<Parameter>(m.parameters)
    }

    open spec fn refusal(m: TrackStatusRequestView) -> Option<Fault> {
        range_refusal(m.request_id as int)
            .otherwise(range_refusal(m.track_namespace as int))
            .otherwise(String::refusal(m.track_name))
            .otherwise(list_refusal::<Parameter>(m.parameters))
    }

    fn check(&self) -> (r: Result<(), Error>) {
        check_int(self.request_id)?;
        check_int(self.track_namespace)?;
        self.track_name.check()?;
        check_list(&self.parameters)
    }

    fn write(&self, out: &mut Vec<u8>) {
        let ghost base = out@;
        let ghost m = self@;
        let ghost w0 = varint_wire(m.request_id);
        let ghost w1 = w0 + varint_wire(m.track_namespace);
        let ghost w2 = w1 + String::wire(m.track_name);
        write_int(out, self.request_id);
        write_int(out, self.track_namespace);
        proof {
            lemma_append(base, w0, varint_wire(m.track_namespace));
        }
        self.track_name.write(out);
        proof {
            lemma_append(base, w1, String::wire(m.track_name));
        }
        write_list(out, &self.parameters);
        proof {
            lemma_append(base, w2, list_wire::<Parameter>(m.parameters));
        }
    }
}

impl Decode for TrackStatusRequest {
    open spec fn parse(b: Seq<u8>, pos: int) -> Result<(TrackStatusRequestView, int), Fault> {
        let request_id = parse_int(b, pos);
        let track_namespace = parse_int(b, end_of(request_id));
        let track_name = String::parse(b, end_of(track_namespace));
        let parameters = parse_list::<Parameter>(b, end_of(track_name));
        let fault =
            failure(request_id)
                .otherwise(failure(track_namespace))
                .otherwise(failure(track_name))
                .otherwise(failure(parameters));
        match fault {
            Some(f) => Err(f),
            None => Ok(
                (
                    TrackStatusRequestView {
                        request_id: value_of(request_id),
                        track_namespace: value_of(track_namespace),
                        track_name: value_of(track_name),
                        parameters: value_of(parameters),
                    },
                    end_of(parameters),
                ),
            ),
        }
    }

    fn read(src: &[u8], pos: usize) -> (r: Result<(Self, usize), Error>) {
        let (request_id, at) = read_int(src, pos, "request id")?;
        let (track_namespace, at) = read_int(src, at, "track namespace")?;
        let (track_name, at) = String::read(src, at)?;
        let (parameters, at) = read_list::<Parameter>(src, at)?;
        Ok((TrackStatusRequest { request_id, track_namespace, track_name, parameters }, at))
    }
}

impl RoundTrip for TrackStatusRequest {
    open spec fn canonical(m: TrackStatusRequestView) -> bool {
        &&& m.request_id < VARINT_LIMIT
        &&& m.track_namespace < VARINT_LIMIT
        &&& String::canonical(m.track_name)
        &&& m.parameters.len() < VARINT_LIMIT
        &&& all_canonical::<Parameter>(m.parameters)
    }

    proof fn lemma_round_trip(m: TrackStatusRequestView, b: Seq<u8>, pos: int) {
        let f0 = varint_wire(m.request_id);
        let f1 = varint_wire(m.track_namespace);
        let f2 = String::wire(m.track_name);
        let f3 = list_wire::<Parameter>(m.parameters);
        let w1 = f0 + f1;
        let w2 = w1 + f2;
        lemma_holds_at_concat(b, pos, w2, f3);
        lemma_holds_at_concat(b, pos, w1, f2);
        lemma_holds_at_concat(b, pos, f0, f1);
        lemma_int_round_trip(m.request_id, b, pos);
        lemma_int_round_trip(m.track_namespace, b, pos + f0.len());
        String::lemma_round_trip(m.track_name, b, pos + w1.len());
        lemma_list_round_trip::<Parameter>(m.parameters, b, pos + w2.len());
    }

    proof fn lemma_parse_canonical(b: Seq<u8>, pos: int) {
        let request_id = parse_int(b, pos);
        let track_namespace = parse_int(b, end_of(request_id));
        let track_name = String::parse(b, end_of(track_namespace));
        lemma_int_parsed(b, pos);
        lemma_int_parsed(b, end_of(request_id));
        String::lemma_parse_canonical(b, end_of(track_namespace));
        lemma_list_parsed::<Parameter>(b, end_of(track_name));
    }
}

} // verus!
