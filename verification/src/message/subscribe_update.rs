//! SUBSCRIBE_UPDATE and its payload.

use vstd::prelude::*;
use crate::codec::{Encode, Decode, RoundTrip, views};
use crate::codec::field::{
    InOrder, value_of, end_of, failure, range_refusal, rule, lemma_int_parsed, parse_int,
    parse_byte, read_int, read_byte, check_int, check_rule, write_int, write_byte, lemma_append,
    lemma_holds_at_concat, lemma_int_round_trip, lemma_byte_round_trip,
};
use crate::codec::list::{
    list_wire, list_refusal, parse_list, all_canonical, check_list, write_list, read_list,
    lemma_list_round_trip, lemma_list_parsed,
};
use crate::codec::varint::{VARINT_LIMIT, varint_wire};
use crate::error::{Error, Fault};
use crate::model::{Location, Parameter, ParameterView};

verus! {

/// SUBSCRIBE_UPDATE: narrows a subscription that is under way.
#[derive(Debug, PartialEq, Eq, Clone)]
pub struct SubscribeUpdate {
    pub request_id: u64,
    pub start_location: Location,
    pub end_group: u64,
    pub subscriber_priority: u8,
    /// 0 or 1.
    pub forward: u8,
    pub parameters: Vec<Parameter>,
}

/// The model of a [`SubscribeUpdate`].
pub struct SubscribeUpdateView {
    pub request_id: u64,
    pub start_location: Location,
    pub end_group: u64,
    pub subscriber_priority: u8,
    pub forward: u8,
    pub parameters: Seq<ParameterView>,
}

impl View for SubscribeUpdate {
    type V = SubscribeUpdateView;

    open spec fn view(&self) -> SubscribeUpdateView {
        SubscribeUpdateView {
            request_id: self.request_id,
            start_location: self.start_location@,
            end_group: self.end_group,
            subscriber_priority: self.subscriber_priority,
            forward: self.forward,
            parameters: views(self.parameters@),
        }
    }
}

impl Encode for SubscribeUpdate {
    open spec fn wire(m: SubscribeUpdateView) -> Seq<u8> {
        varint_wire(m.request_id)
            + Location::wire(m.start_location)
            + varint_wire(m.end_group)
            + seq![m.subscriber_priority]
            + seq![m.forward]
            + list_wire::<Parameter>(m.parameters)
    }

    open spec fn refusal(m: SubscribeUpdateView) -> Option<Fault> {
        range_refusal(m.request_id as int)
            .otherwise(Location::refusal(m.start_location))
            .otherwise(range_refusal(m.end_group as int))
            .otherwise(rule(m.forward <= 1))
            .otherwise(list_refusal::<Parameter>(m.parameters))
    }

    fn check(&self) -> (r: Result<(), Error>) {
        check_int(self.request_id)?;
        self.start_location.check()?;
        check_int(self.end_group)?;
        check_rule(self.forward <= 1, "invalid forward value")?;
        check_list(&self.parameters)
    }

    fn write(&self, out: &mut Vec<u8>) {
        let ghost base = out@;
        let ghost m = self@;
        let ghost w0 = varint_wire(m.request_id);
        let ghost w1 = w0 + Location::wire(m.start_location);
        let ghost w2 = w1 + varint_wire(m.end_group);
        let ghost w3 = w2 + seq![m.subscriber_priority];
        let ghost w4 = w3 + seq![m.forward];
        write_int(out, self.request_id);
        self.start_location.write(out);
        proof {
            lemma_append(base, w0, Location::wire(m.start_location));
        }
        write_int(out, self.end_group);
        proof {
            lemma_append(base, w1, varint_wire(m.end_group));
        }
        write_byte(out, self.subscriber_priority);
        proof {
            lemma_append(base, w2, seq![m.subscriber_priority]);
        }
        write_byte(out, self.forward);
        proof {
            lemma_append(base, w3, seq![m.forward]);
        }
        write_list(out, &self.parameters);
        proof {
            lemma_append(base, w4, list_wire::<Parameter>(m.parameters));
        }
    }
}

impl Decode for SubscribeUpdate {
    open spec fn parse(b: Seq<u8>, pos: int) -> Result<(SubscribeUpdateView, int), Fault> {
        let request_id = parse_int(b, pos);
        let start_location = Location::parse(b, end_of(request_id));
        let end_group = parse_int(b, end_of(start_location));
        let subscriber_priority = parse_byte(b, end_of(end_group));
        let forward = parse_byte(b, end_of(subscriber_priority));
        let parameters = parse_list::<Parameter>(b, end_of(forward));
        let fault =
            failure(request_id)
                .otherwise(failure(start_location))
                .otherwise(failure(end_group))
                .otherwise(failure(subscriber_priority))
                .otherwise(failure(forward))
                .otherwise(rule(value_of(forward) <= 1))
                .otherwise(failure(parameters));
        match fault {
            Some(f) => Err(f),
            None => Ok(
                (
                    SubscribeUpdateView {
                        request_id: value_of(request_id),
                        start_location: value_of(start_location),
                        end_group: value_of(end_group),
                        subscriber_priority: value_of(subscriber_priority),
                        forward: value_of(forward),
                        parameters: value_of(parameters),
                    },
                    end_of(parameters),
                ),
            ),
        }
    }

    fn read(src: &[u8], pos: usize) -> (r: Result<(Self, usize), Error>) {
        let (request_id, at) = read_int(src, pos, "request id")?;
        let (start_location, at) = Location::read(src, at)?;
        let (end_group, at) = read_int(src, at, "end group")?;
        let (subscriber_priority, at) = read_byte(src, at, "subscriber priority")?;
        let (forward, at) = read_byte(src, at, "forward")?;
        if !(forward <= 1) {
            return Err(Error::violation("invalid forward value"));
        }
        let (parameters, at) = read_list::<Parameter>(src, at)?;
        Ok(
            (
                SubscribeUpdate {
                    request_id,
                    start_location,
                    end_group,
                    subscriber_priority,
                    forward,
                    parameters,
                },
                at,
            ),
        )
    }
}

impl RoundTrip for SubscribeUpdate {
    open spec fn canonical(m: SubscribeUpdateView) -> bool {
        &&& m.request_id < VARINT_LIMIT
        &&& Location::canonical(m.start_location)
        &&& m.end_group < VARINT_LIMIT
        &&& m.forward <= 1
        &&& m.parameters.len() < VARINT_LIMIT
        &&& all_canonical::<Parameter>(m.parameters)
    }

    proof fn lemma_round_trip(m: SubscribeUpdateView, b: Seq<u8>, pos: int) {
        let f0 = varint_wire(m.request_id);
        let f1 = Location::wire(m.start_location);
        let f2 = varint_wire(m.end_group);
        let f3 = seq![m.subscriber_priority];
        let f4 = seq![m.forward];
        let f5 = list_wire::<Parameter>(m.parameters);
        let w1 = f0 + f1;
        let w2 = w1 + f2;
        let w3 = w2 + f3;
        let w4 = w3 + f4;
        lemma_holds_at_concat(b, pos, w4, f5);
        lemma_holds_at_concat(b, pos, w3, f4);
        lemma_holds_at_concat(b, pos, w2, f3);
        lemma_holds_at_concat(b, pos, w1, f2);
        lemma_holds_at_concat(b, pos, f0, f1);
        lemma_int_round_trip(m.request_id, b, pos);
        Location::lemma_round_trip(m.start_location, b, pos + f0.len());
        lemma_int_round_trip(m.end_group, b, pos + w1.len());
        lemma_byte_round_trip(m.subscriber_priority, b, pos + w2.len());
        lemma_byte_round_trip(m.forward, b, pos + w3.len());
        lemma_list_round_trip::<Parameter>(m.parameters, b, pos + w4.len());
    }

    proof fn lemma_parse_canonical(b: Seq<u8>, pos: int) {
        let request_id = parse_int(b, pos);
        let start_location = Location::parse(b, end_of(request_id));
        let end_group = parse_int(b, end_of(start_location));
        let subscriber_priority = parse_byte(b, end_of(end_group));
        let forward = parse_byte(b, end_of(subscriber_priority));
        lemma_int_parsed(b, pos);
        Location::lemma_parse_canonical(b, end_of(request_id));
        lemma_int_parsed(b, end_of(start_location));
        lemma_list_parsed::<Parameter>(b, end_of(forward));
    }
}

} // verus!
