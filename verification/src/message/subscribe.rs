//! SUBSCRIBE and its payload.

use vstd::prelude::*;
use crate::codec::{Encode, Decode, RoundTrip, views};
use crate::codec::field::{
    InOrder, value_of, end_of, failure, range_refusal, rule, lemma_int_parsed, parse_int,
    parse_byte, read_int, read_byte, check_int, check_rule, write_int, write_byte, lemma_append,
    lemma_holds_at_concat, lemma_int_round_trip, lemma_byte_round_trip,
};
use crate::codec::list::{
    list_wire, list_refusal, parse_list, all_canonical, check_list, write_list, read_list,
    lemma_list_round_trip, lemma_list_parsed,
};
use crate::codec::optional::{
    opt_view, opt_wire, opt_refusal, parse_opt, opt_canonical, check_opt, write_opt, read_opt,
    lemma_opt_round_trip, lemma_opt_parsed,
};
use crate::codec::varint::{VARINT_LIMIT, varint_wire};
use crate::error::{Error, Fault};
use crate::model::{Location, Parameter, ParameterView};

verus! {

/// SUBSCRIBE: asks the publisher for the objects of a track.
#[derive(Debug, PartialEq, Eq, Clone)]
pub struct Subscribe {
    pub request_id: u64,
    pub track_namespace: u64,
    pub track_name: String,
    pub subscriber_priority: u8,
    /// 0 (the default order), 1 (ascending) or 2 (descending).
    pub group_order: u8,
    /// 0 or 1.
    pub forward: u8,
    /// 1 to 4. Types 3 and 4 carry a start location, type 4 an end group as well.
    pub filter_type: u64,
    pub start_location: Option<Location>,
    pub end_group: Option<u64>,
    pub parameters: Vec<Parameter>,
}

/// The model of a [`Subscribe`].
pub struct SubscribeView {
    pub request_id: u64,
    pub track_namespace: u64,
    pub track_name: Seq<char>,
    pub subscriber_priority: u8,
    pub group_order: u8,
    pub forward: u8,
    pub filter_type: u64,
    pub start_location: Option<Location>,
    pub end_group: Option<u64>,
    pub parameters: Seq<ParameterView>,
}

impl View for Subscribe {
    type V = SubscribeView;

    open spec fn view(&self) -> SubscribeView {
        SubscribeView {
            request_id: self.request_id,
            track_namespace: self.track_namespace,
            track_name: self.track_name@,
            subscriber_priority: self.subscriber_priority,
            group_order: self.group_order,
            forward: self.forward,
            filter_type: self.filter_type,
            start_location: opt_view(self.start_location),
            end_group: opt_view(self.end_group),
            parameters: views(self.parameters@),
        }
    }
}

impl Encode for Subscribe {
    open spec fn wire(m: SubscribeView) -> Seq<u8> {
        varint_wire(m.request_id)
            + varint_wire(m.track_namespace)
            + String::wire(m.track_name)
            + seq![m.subscriber_priority]
            + seq![m.group_order]
            + seq![m.forward]
            + varint_wire(m.filter_type)
            + opt_wire::<Location>(m.filter_type == 3 || m.filter_type == 4, m.start_location)
            + opt_wire::<u64>(m.filter_type == 4, m.end_group)
            + list_wire::<Parameter>(m.parameters)
    }

    open spec fn refusal(m: SubscribeView) -> Option<Fault> {
        range_refusal(m.request_id as int)
            .otherwise(range_refusal(m.track_namespace as int))
            .otherwise(String::refusal(m.track_name))
            .otherwise(rule(m.group_order <= 2))
            .otherwise(rule(m.forward <= 1))
            .otherwise(rule(1 <= m.filter_type && m.filter_type <= 4))
            .otherwise(
                opt_refusal::<Location>(m.filter_type == 3 || m.filter_type == 4, m.start_location),
            )
            .otherwise(opt_refusal::<u64>(m.filter_type == 4, m.end_group))
            .otherwise(list_refusal::<Parameter>(m.parameters))
    }

    fn check(&self) -> (r: Result<(), Error>) {
        check_int(self.request_id)?;
        check_int(self.track_namespace)?;
        self.track_name.check()?;
        check_rule(self.group_order <= 2, "invalid group order")?;
        check_rule(self.forward <= 1, "invalid forward value")?;
        check_rule(1 <= self.filter_type && self.filter_type <= 4, "invalid filter type")?;
        check_opt(
            self.filter_type == 3 || self.filter_type == 4,
            &self.start_location,
            "missing start location",
        )?;
        check_opt(self.filter_type == 4, &self.end_group, "missing end group")?;
        check_list(&self.parameters)
    }

    fn write(&self, out: &mut Vec<u8>) {
        let ghost base = out@;
        let ghost m = self@;
        let ghost w0 = varint_wire(m.request_id);
        let ghost w1 = w0 + varint_wire(m.track_namespace);
        let ghost w2 = w1 + String::wire(m.track_name);
        let ghost w3 = w2 + seq![m.subscriber_priority];
        let ghost w4 = w3 + seq![m.group_order];
        let ghost w5 = w4 + seq![m.forward];
        let ghost w6 = w5 + varint_wire(m.filter_type);
        let ghost w7 = w6 + opt_wire::<Location>(
            m.filter_type == 3 || m.filter_type == 4,
            m.start_location,
        );
        let ghost w8 = w7 + opt_wire::<u64>(m.filter_type == 4, m.end_group);
        write_int(out, self.request_id);
        write_int(out, self.track_namespace);
        proof {
            lemma_append(base, w0, varint_wire(m.track_namespace));
        }
        self.track_name.write(out);
        proof {
            lemma_append(base, w1, String::wire(m.track_name));
        }
        write_byte(out, self.subscriber_priority);
        proof {
            lemma_append(base, w2, seq![m.subscriber_priority]);
        }
        write_byte(out, self.group_order);
        proof {
            lemma_append(base, w3, seq![m.group_order]);
        }
        write_byte(out, self.forward);
        proof {
            lemma_append(base, w4, seq![m.forward]);
        }
        write_int(out, self.filter_type);
        proof {
            lemma_append(base, w5, varint_wire(m.filter_type));
        }
        write_opt(out, self.filter_type == 3 || self.filter_type == 4, &self.start_location);
        proof {
            lemma_append(
                base,
                w6,
                opt_wire::<Location>(m.filter_type == 3 || m.filter_type == 4, m.start_location),
            );
        }
        write_opt(out, self.filter_type == 4, &self.end_group);
        proof {
            lemma_append(base, w7, opt_wire::<u64>(m.filter_type == 4, m.end_group));
        }
        write_list(out, &self.parameters);
        proof {
            lemma_append(base, w8, list_wire::<Parameter>(m.parameters));
        }
    }
}

impl Decode for Subscribe {
    open spec fn parse(b: Seq<u8>, pos: int) -> Result<(SubscribeView, int), Fault> {
        let request_id = parse_int(b, pos);
        let track_namespace = parse_int(b, end_of(request_id));
        let track_name = String::parse(b, end_of(track_namespace));
        let subscriber_priority = parse_byte(b, end_of(track_name));
        let group_order = parse_byte(b, end_of(subscriber_priority));
        let forward = parse_byte(b, end_of(group_order));
        let filter_type = parse_int(b, end_of(forward));
        let start_location = parse_opt::<Location>(
            value_of(filter_type) == 3 || value_of(filter_type) == 4,
            b,
            end_of(filter_type),
        );
        let end_group = parse_opt::<u64>(value_of(filter_type) == 4, b, end_of(start_location));
        let parameters = parse_list::<Parameter>(b, end_of(end_group));
        let fault =
            failure(request_id)
                .otherwise(failure(track_namespace))
                .otherwise(failure(track_name))
                .otherwise(failure(subscriber_priority))
                .otherwise(failure(group_order))
                .otherwise(rule(value_of(group_order) <= 2))
                .otherwise(failure(forward))
                .otherwise(rule(value_of(forward) <= 1))
                .otherwise(failure(filter_type))
                .otherwise(rule(1 <= value_of(filter_type) && value_of(filter_type) <= 4))
                .otherwise(failure(start_location))
                .otherwise(failure(end_group))
                .otherwise(failure(parameters));
        match fault {
            Some(f) => Err(f),
            None => Ok(
                (
                    SubscribeView {
                        request_id: value_of(request_id),
                        track_namespace: value_of(track_namespace),
                        track_name: value_of(track_name),
                        subscriber_priority: value_of(subscriber_priority),
                        group_order: value_of(group_order),
                        forward: value_of(forward),
                        filter_type: value_of(filter_type),
                        start_location: value_of(start_location),
                        end_group: value_of(end_group),
                        parameters: value_of(parameters),
                    },
                    end_of(parameters),
                ),
            ),
        }
    }

    fn read(src: &[u8], pos: usize) -> (r: Result<(Self, usize), Error>) {
        let (request_id, at) = read_int(src, pos, "request id")?;
        let (track_namespace, at) = read_int(src, at, "track namespace")?;
        let (track_name, at) = String::read(src, at)?;
        let (subscriber_priority, at) = read_byte(src, at, "subscriber priority")?;
        let (group_order, at) = read_byte(src, at, "group order")?;
        if !(group_order <= 2) {
            return Err(Error::violation("invalid group order"));
        }
        let (forward, at) = read_byte(src, at, "forward")?;
        if !(forward <= 1) {
            return Err(Error::violation("invalid forward value"));
        }
        let (filter_type, at) = read_int(src, at, "filter type")?;
        if !(1 <= filter_type && filter_type <= 4) {
            return Err(Error::violation("invalid filter type"));
        }
        let (start_location, at) = read_opt::<Location>(
            filter_type == 3 || filter_type == 4,
            src,
            at,
        )?;
        let (end_group, at) = read_opt::<u64>(filter_type == 4, src, at)?;
        let (parameters, at) = read_list::<Parameter>(src, at)?;
        Ok(
            (
                Subscribe {
                    request_id,
                    track_namespace,
                    track_name,
                    subscriber_priority,
                    group_order,
                    forward,
                    filter_type,
                    start_location,
                    end_group,
                    parameters,
                },
                at,
            ),
        )
    }
}

impl RoundTrip for Subscribe {
    open spec fn canonical(m: SubscribeView) -> bool {
        &&& m.request_id < VARINT_LIMIT
        &&& m.track_namespace < VARINT_LIMIT
        &&& String::canonical(m.track_name)
        &&& m.group_order <= 2
        &&& m.forward <= 1
        &&& 1 <= m.filter_type && m.filter_type <= 4
        &&& opt_canonical::<Location>(m.filter_type == 3 || m.filter_type == 4, m.start_location)
        &&& opt_canonical::<u64>(m.filter_type == 4, m.end_group)
        &&& m.parameters.len() < VARINT_LIMIT
        &&& all_canonical::<Parameter>(m.parameters)
    }

    proof fn lemma_round_trip(m: SubscribeView, b: Seq<u8>, pos: int) {
        let f0 = varint_wire(m.request_id);
        let f1 = varint_wire(m.track_namespace);
        let f2 = String::wire(m.track_name);
        let f3 = seq![m.subscriber_priority];
        let f4 = seq![m.group_order];
        let f5 = seq![m.forward];
        let f6 = varint_wire(m.filter_type);
        let f7 = opt_wire::<Location>(m.filter_type == 3 || m.filter_type == 4, m.start_location);
        let f8 = opt_wire::<u64>(m.filter_type == 4, m.end_group);
        let f9 = list_wire::<Parameter>(m.parameters);
        let w1 = f0 + f1;
        let w2 = w1 + f2;
        let w3 = w2 + f3;
        let w4 = w3 + f4;
        let w5 = w4 + f5;
        let w6 = w5 + f6;
        let w7 = w6 + f7;
        let w8 = w7 + f8;
        lemma_holds_at_concat(b, pos, w8, f9);
        lemma_holds_at_concat(b, pos, w7, f8);
        lemma_holds_at_concat(b, pos, w6, f7);
        lemma_holds_at_concat(b, pos, w5, f6);
        lemma_holds_at_concat(b, pos, w4, f5);
        lemma_holds_at_concat(b, pos, w3, f4);
        lemma_holds_at_concat(b, pos, w2, f3);
        lemma_holds_at_concat(b, pos, w1, f2);
        lemma_holds_at_concat(b, pos, f0, f1);
        lemma_int_round_trip(m.request_id, b, pos);
        lemma_int_round_trip(m.track_namespace, b, pos + f0.len());
        String::lemma_round_trip(m.track_name, b, pos + w1.len());
        lemma_byte_round_trip(m.subscriber_priority, b, pos + w2.len());
        lemma_byte_round_trip(m.group_order, b, pos + w3.len());
        lemma_byte_round_trip(m.forward, b, pos + w4.len());
        lemma_int_round_trip(m.filter_type, b, pos + w5.len());
        lemma_opt_round_trip::<Location>(
            m.filter_type == 3 || m.filter_type == 4,
            m.start_location,
            b,
            pos + w6.len(),
        );
        lemma_opt_round_trip::<u64>(m.filter_type == 4, m.end_group, b, pos + w7.len());
        lemma_list_round_trip::<Parameter>(m.parameters, b, pos + w8.len());
    }

    proof fn lemma_parse_canonical(b: Seq<u8>, pos: int) {
        let request_id = parse_int(b, pos);
        let track_namespace = parse_int(b, end_of(request_id));
        let track_name = String::parse(b, end_of(track_namespace));
        let subscriber_priority = parse_byte(b, end_of(track_name));
        let group_order = parse_byte(b, end_of(subscriber_priority));
        let forward = parse_byte(b, end_of(group_order));
        let filter_type = parse_int(b, end_of(forward));
        let start_location = parse_opt::<Location>(
            value_of(filter_type) == 3 || value_of(filter_type) == 4,
            b,
            end_of(filter_type),
        );
        let end_group = parse_opt::<u64>(value_of(filter_type) == 4, b, end_of(start_location));
        lemma_int_parsed(b, pos);
        lemma_int_parsed(b, end_of(request_id));
        String::lemma_parse_canonical(b, end_of(track_namespace));
        lemma_int_parsed(b, end_of(forward));
        lemma_opt_parsed::<Location>(
            value_of(filter_type) == 3 || value_of(filter_type) == 4,
            b,
            end_of(filter_type),
        );
        lemma_opt_parsed::<u64>(value_of(filter_type) == 4, b, end_of(start_location));
        lemma_list_parsed::<Parameter>(b, end_of(end_group));
    }
}

} // verus!
