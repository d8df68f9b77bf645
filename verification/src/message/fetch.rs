//! FETCH and its payload.

use vstd::prelude::*;
use crate::codec::{Encode, Decode, RoundTrip, views};
use crate::codec::field::{
    InOrder, value_of, end_of, failure, range_refusal, rule, lemma_int_parsed, parse_int,
    parse_byte, read_int, read_byte, check_int, check_rule, write_int, write_byte, lemma_append,
    lemma_holds_at_concat, lemma_int_round_trip, lemma_byte_round_trip,
};
use crate::codec::list::{
    list_wire, list_refusal, parse_list, all_canonical, check_list, write_list, read_list,
    lemma_list_round_trip, lemma_list_parsed,
};
use crate::codec::optional::{
    opt_view, opt_wire, opt_refusal, parse_opt, opt_canonical, check_opt, write_opt, read_opt,
    lemma_opt_round_trip, lemma_opt_parsed,
};
use crate::codec::varint::{VARINT_LIMIT, varint_wire};
use crate::error::{Error, Fault};
use crate::model::{Location, Parameter, ParameterView};

verus! {

/// FETCH: asks for objects that the publisher already holds. A standalone
/// fetch (type 1) names the track and a range; a joining fetch (types 2
/// and 3) refers to a subscription.
#[derive(Debug, PartialEq, Eq, Clone)]
pub struct Fetch {
    pub request_id: u64,
    pub subscriber_priority: u8,
    /// 0 (the default order), 1 (ascending) or 2 (descending).
    pub group_order: u8,
    /// 1 (standalone), 2 or 3 (joining).
    pub fetch_type: u64,
    pub track_namespace: Option<u64>,
    pub track_name: Option<String>,
    pub start_location: Option<Location>,
    pub end_location: Option<Location>,
    pub joining_request_id: Option<u64>,
    pub joining_start: Option<u64>,
    pub parameters: Vec<Parameter>,
}

/// The model of a [`Fetch`].
pub struct FetchView {
    pub request_id: u64,
    pub subscriber_priority: u8,
    pub group_order: u8,
    pub fetch_type: u64,
    pub track_namespace: Option<u64>,
    pub track_name: Option<Seq<char>>,
    pub start_location: Option<Location>,
    pub end_location: Option<Location>,
    pub joining_request_id: Option<u64>,
    pub joining_start: Option<u64>,
    pub parameters: Seq<ParameterView>,
}

impl View for Fetch {
    type V = FetchView;

    open spec fn view(&self) -> FetchView {
        FetchView {
            request_id: self.request_id,
            subscriber_priority: self.subscriber_priority,
            group_order: self.group_order,
            fetch_type: self.fetch_type,
            track_namespace: opt_view(self.track_namespace),
            track_name: opt_view(self.track_name),
            start_location: opt_view(self.start_location),
            end_location: opt_view(self.end_location),
            joining_request_id: opt_view(self.joining_request_id),
            joining_start: opt_view(self.joining_start),
            parameters: views(self.parameters@),
        }
    }
}

impl Encode for Fetch {
    open spec fn wire(m: FetchView) -> Seq<u8> {
        varint_wire(m.request_id)
            + seq![m.subscriber_priority]
            + seq![m.group_order]
            + varint_wire(m.fetch_type)
            + opt_wire::<u64>(m.fetch_type == 1, m.track_namespace)
            + opt_wire::<String>(m.fetch_type == 1, m.track_name)
            + opt_wire::<Location>(m.fetch_type == 1, m.start_location)
            + opt_wire::<Location>(m.fetch_type == 1, m.end_location)
            + opt_wire::<u64>(m.fetch_type != 1, m.joining_request_id)
            + opt_wire::<u64>(m.fetch_type != 1, m.joining_start)
            + list_wire::<Parameter>(m.parameters)
    }

    open spec fn refusal(m: FetchView) -> Option<Fault> {
        range_refusal(m.request_id as int)
            .otherwise(rule(m.group_order <= 2))
            .otherwise(rule(1 <= m.fetch_type && m.fetch_type <= 3))
            .otherwise(opt_refusal::<u64>(m.fetch_type == 1, m.track_namespace))
            .otherwise(opt_refusal::<String>(m.fetch_type == 1, m.track_name))
            .otherwise(opt_refusal::<Location>(m.fetch_type == 1, m.start_location))
            .otherwise(opt_refusal::<Location>(m.fetch_type == 1, m.end_location))
            .otherwise(opt_refusal::<u64>(m.fetch_type != 1, m.joining_request_id))
            .otherwise(opt_refusal::<u64>(m.fetch_type != 1, m.joining_start))
            .otherwise(list_refusal::<Parameter>(m.parameters))
    }

    fn check(&self) -> (r: Result<(), Error>) {
        check_int(self.request_id)?;
        check_rule(self.group_order <= 2, "invalid group order")?;
        check_rule(1 <= self.fetch_type && self.fetch_type <= 3, "invalid fetch type")?;
        check_opt(self.fetch_type == 1, &self.track_namespace, "missing track namespace")?;
        check_opt(self.fetch_type == 1, &self.track_name, "missing track name")?;
        check_opt(self.fetch_type == 1, &self.start_location, "missing start location")?;
        check_opt(self.fetch_type == 1, &self.end_location, "missing end location")?;
        check_opt(self.fetch_type != 1, &self.joining_request_id, "missing joining request id")?;
        check_opt(self.fetch_type != 1, &self.joining_start, "missing joining start")?;
        check_list(&self.parameters)
    }

    fn write(&self, out: &mut Vec<u8>) {
        let ghost base = out@;
        let ghost m = self@;
        let ghost w0 = varint_wire(m.request_id);
        let ghost w1 = w0 + seq![m.subscriber_priority];
        let ghost w2 = w1 + seq![m.group_order];
        let ghost w3 = w2 + varint_wire(m.fetch_type);
        let ghost w4 = w3 + opt_wire::<u64>(m.fetch_type == 1, m.track_namespace);
        let ghost w5 = w4 + opt_wire::<String>(m.fetch_type == 1, m.track_name);
        let ghost w6 = w5 + opt_wire::<Location>(m.fetch_type == 1, m.start_location);
        let ghost w7 = w6 + opt_wire::<Location>(m.fetch_type == 1, m.end_location);
        let ghost w8 = w7 + opt_wire::<u64>(m.fetch_type != 1, m.joining_request_id);
        let ghost w9 = w8 + opt_wire::<u64>(m.fetch_type != 1, m.joining_start);
        write_int(out, self.request_id);
        write_byte(out, self.subscriber_priority);
        proof {
            lemma_append(base, w0, seq![m.subscriber_priority]);
        }
        write_byte(out, self.group_order);
        proof {
            lemma_append(base, w1, seq![m.group_order]);
        }
        write_int(out, self.fetch_type);
        proof {
            lemma_append(base, w2, varint_wire(m.fetch_type));
        }
        write_opt(out, self.fetch_type == 1, &self.track_namespace);
        proof {
            lemma_append(base, w3, opt_wire::<u64>(m.fetch_type == 1, m.track_namespace));
        }
        write_opt(out, self.fetch_type == 1, &self.track_name);
        proof {
            lemma_append(base, w4, opt_wire::<String>(m.fetch_type == 1, m.track_name));
        }
        write_opt(out, self.fetch_type == 1, &self.start_location);
        proof {
            lemma_append(base, w5, opt_wire::<Location>(m.fetch_type == 1, m.start_location));
        }
        write_opt(out, self.fetch_type == 1, &self.end_location);
        proof {
            lemma_append(base, w6, opt_wire::<Location>(m.fetch_type == 1, m.end_location));
        }
        write_opt(out, self.fetch_type != 1, &self.joining_request_id);
        proof {
            lemma_append(base, w7, opt_wire::<u64>(m.fetch_type != 1, m.joining_request_id));
        }
        write_opt(out, self.fetch_type != 1, &self.joining_start);
        proof {
            lemma_append(base, w8, opt_wire::<u64>(m.fetch_type != 1, m.joining_start));
        }
        write_list(out, &self.parameters);
        proof {
            lemma_append(base, w9, list_wire::<Parameter>(m.parameters));
        }
    }
}

impl Decode for Fetch {
    open spec fn parse(b: Seq<u8>, pos: int) -> Result<(FetchView, int), Fault> {
        let request_id = parse_int(b, pos);
        let subscriber_priority = parse_byte(b, end_of(request_id));
        let group_order = parse_byte(b, end_of(subscriber_priority));
        let fetch_type = parse_int(b, end_of(group_order));
        let track_namespace = parse_opt::<u64>(value_of(fetch_type) == 1, b, end_of(fetch_type));
        let track_name = parse_opt::<String>(value_of(fetch_type) == 1, b, end_of(track_namespace));
        let start_location = parse_opt::<Location>(
            value_of(fetch_type) == 1,
            b,
            end_of(track_name),
        );
        let end_location = parse_opt::<Location>(
            value_of(fetch_type) == 1,
            b,
            end_of(start_location),
        );
        let joining_request_id = parse_opt::<u64>(
            value_of(fetch_type) != 1,
            b,
            end_of(end_location),
        );
        let joining_start = parse_opt::<u64>(
            value_of(fetch_type) != 1,
            b,
            end_of(joining_request_id),
        );
        let parameters = parse_list::<Parameter>(b, end_of(joining_start));
        let fault =
            failure(request_id)
                .otherwise(failure(subscriber_priority))
                .otherwise(failure(group_order))
                .otherwise(rule(value_of(group_order) <= 2))
                .otherwise(failure(fetch_type))
                .otherwise(rule(1 <= value_of(fetch_type) && value_of(fetch_type) <= 3))
                .otherwise(failure(track_namespace))
                .otherwise(failure(track_name))
                .otherwise(failure(start_location))
                .otherwise(failure(end_location))
                .otherwise(failure(joining_request_id))
                .otherwise(failure(joining_start))
                .otherwise(failure(parameters));
        match fault {
            Some(f) => Err(f),
            None => Ok(
                (
                    FetchView {
                        request_id: value_of(request_id),
                        subscriber_priority: value_of(subscriber_priority),
                        group_order: value_of(group_order),
                        fetch_type: value_of(fetch_type),
                        track_namespace: value_of(track_namespace),
                        track_name: value_of(track_name),
                        start_location: value_of(start_location),
                        end_location: value_of(end_location),
                        joining_request_id: value_of(joining_request_id),
                        joining_start: value_of(joining_start),
                        parameters: value_of(parameters),
                    },
                    end_of(parameters),
                ),
            ),
        }
    }

    fn read(src: &[u8], pos: usize) -> (r: Result<(Self, usize), Error>) {
        let (request_id, at) = read_int(src, pos, "request id")?;
        let (subscriber_priority, at) = read_byte(src, at, "subscriber priority")?;
        let (group_order, at) = read_byte(src, at, "group order")?;
        if !(group_order <= 2) {
            return Err(Error::violation("invalid group order"));
        }
        let (fetch_type, at) = read_int(src, at, "fetch type")?;
        if !(1 <= fetch_type && fetch_type <= 3) {
            return Err(Error::violation("invalid fetch type"));
        }
        let (track_namespace, at) = read_opt::<u64>(fetch_type == 1, src, at)?;
        let (track_name, at) = read_opt::<String>(fetch_type == 1, src, at)?;
        let (start_location, at) = read_opt::<Location>(fetch_type == 1, src, at)?;
        let (end_location, at) = read_opt::<Location>(fetch_type == 1, src, at)?;
        let (joining_request_id, at) = read_opt::<u64>(fetch_type != 1, src, at)?;
        let (joining_start, at) = read_opt::<u64>(fetch_type != 1, src, at)?;
        let (parameters, at) = read_list::<Parameter>(src, at)?;
        Ok(
            (
                Fetch {
                    request_id,
                    subscriber_priority,
                    group_order,
                    fetch_type,
                    track_namespace,
                    track_name,
                    start_location,
                    end_location,
                    joining_request_id,
                    joining_start,
                    parameters,
                },
                at,
            ),
        )
    }
}

impl RoundTrip for Fetch {
    open spec fn canonical(m: FetchView) -> bool {
        &&& m.request_id < VARINT_LIMIT
        &&& m.group_order <= 2
        &&& 1 <= m.fetch_type && m.fetch_type <= 3
        &&& opt_canonical::<u64>(m.fetch_type == 1, m.track_namespace)
        &&& opt_canonical::<String>(m.fetch_type == 1, m.track_name)
        &&& opt_canonical::<Location>(m.fetch_type == 1, m.start_location)
        &&& opt_canonical::<Location>(m.fetch_type == 1, m.end_location)
        &&& opt_canonical::<u64>(m.fetch_type != 1, m.joining_request_id)
        &&& opt_canonical::<u64>(m.fetch_type != 1, m.joining_start)
        &&& m.parameters.len() < VARINT_LIMIT
        &&& all_canonical::<Parameter>(m.parameters)
    }

    proof fn lemma_round_trip(m: FetchView, b: Seq<u8>, pos: int) {
        let f0 = varint_wire(m.request_id);
        let f1 = seq![m.subscriber_priority];
        let f2 = seq![m.group_order];
        let f3 = varint_wire(m.fetch_type);
        let f4 = opt_wire::<u64>(m.fetch_type == 1, m.track_namespace);
        let f5 = opt_wire::<String>(m.fetch_type == 1, m.track_name);
        let f6 = opt_wire::<Location>(m.fetch_type == 1, m.start_location);
        let f7 = opt_wire::<Location>(m.fetch_type == 1, m.end_location);
        let f8 = opt_wire::<u64>(m.fetch_type != 1, m.joining_request_id);
        let f9 = opt_wire::<u64>(m.fetch_type != 1, m.joining_start);
        let f10 = list_wire::<Parameter>(m.parameters);
        let w1 = f0 + f1;
        let w2 = w1 + f2;
        let w3 = w2 + f3;
        let w4 = w3 + f4;
        let w5 = w4 + f5;
        let w6 = w5 + f6;
        let w7 = w6 + f7;
        let w8 = w7 + f8;
        let w9 = w8 + f9;
        lemma_holds_at_concat(b, pos, w9, f10);
        lemma_holds_at_concat(b, pos, w8, f9);
        lemma_holds_at_concat(b, pos, w7, f8);
        lemma_holds_at_concat(b, pos, w6, f7);
        lemma_holds_at_concat(b, pos, w5, f6);
        lemma_holds_at_concat(b, pos, w4, f5);
        lemma_holds_at_concat(b, pos, w3, f4);
        lemma_holds_at_concat(b, pos, w2, f3);
        lemma_holds_at_concat(b, pos, w1, f2);
        lemma_holds_at_concat(b, pos, f0, f1);
        lemma_int_round_trip(m.request_id, b, pos);
        lemma_byte_round_trip(m.subscriber_priority, b, pos + f0.len());
        lemma_byte_round_trip(m.group_order, b, pos + w1.len());
        lemma_int_round_trip(m.fetch_type, b, pos + w2.len());
        lemma_opt_round_trip::<u64>(m.fetch_type == 1, m.track_namespace, b, pos + w3.len());
        lemma_opt_round_trip::<String>(m.fetch_type == 1, m.track_name, b, pos + w4.len());
        lemma_opt_round_trip::<Location>(m.fetch_type == 1, m.start_location, b, pos + w5.len());
        lemma_opt_round_trip::<Location>(m.fetch_type == 1, m.end_location, b, pos + w6.len());
        lemma_opt_round_trip::<u64>(m.fetch_type != 1, m.joining_request_id, b, pos + w7.len());
        lemma_opt_round_trip::<u64>(m.fetch_type != 1, m.joining_start, b, pos + w8.len());
        lemma_list_round_trip::<Parameter>(m.parameters, b, pos + w9.len());
    }

    proof fn lemma_parse_canonical(b: Seq<u8>, pos: int) {
        let request_id = parse_int(b, pos);
        let subscriber_priority = parse_byte(b, end_of(request_id));
        let group_order = parse_byte(b, end_of(subscriber_priority));
        let fetch_type = parse_int(b, end_of(group_order));
        let track_namespace = parse_opt::<u64>(value_of(fetch_type) == 1, b, end_of(fetch_type));
        let track_name = parse_opt::<String>(value_of(fetch_type) == 1, b, end_of(track_namespace));
        let start_location = parse_opt::<Location>(
            value_of(fetch_type) == 1,
            b,
            end_of(track_name),
        );
        let end_location = parse_opt::<Location>(
            value_of(fetch_type) == 1,
            b,
            end_of(start_location),
        );
        let joining_request_id = parse_opt::<u64>(
            value_of(fetch_type) != 1,
            b,
            end_of(end_location),
        );
        let joining_start = parse_opt::<u64>(
            value_of(fetch_type) != 1,
            b,
            end_of(joining_request_id),
        );
        lemma_int_parsed(b, pos);
        lemma_int_parsed(b, end_of(group_order));
        lemma_opt_parsed::<u64>(value_of(fetch_type) == 1, b, end_of(fetch_type));
        lemma_opt_parsed::<String>(value_of(fetch_type) == 1, b, end_of(track_namespace));
        lemma_opt_parsed::<Location>(value_of(fetch_type) == 1, b, end_of(track_name));
        lemma_opt_parsed::<Location>(value_of(fetch_type) == 1, b, end_of(start_location));
        lemma_opt_parsed::<u64>(value_of(fetch_type) != 1, b, end_of(end_location));
        lemma_opt_parsed::<u64>(value_of(fetch_type) != 1, b, end_of(joining_request_id));
        lemma_list_parsed::<Parameter>(b, end_of(joining_start));
    }
}

} // verus!
