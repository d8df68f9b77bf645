//! PUBLISH_OK and its payload.

use vstd::prelude::*;
use crate::codec::{Encode, Decode, RoundTrip, views};
use crate::codec::field::{
    InOrder, value_of, end_of, failure, range_refusal, rule, lemma_int_parsed, parse_int,
    parse_byte, read_int, read_byte, check_int, check_rule, write_int, write_byte, lemma_append,
    lemma_holds_at_concat, lemma_int_round_trip, lemma_byte_round_trip,
};
use crate::codec::list::{
    list_wire, list_refusal, parse_list, all_canonical, check_list, write_list, read_list,
    lemma_list_round_trip, lemma_list_parsed,
};
use crate::codec::optional::{
    opt_view, opt_wire, opt_refusal, parse_opt, opt_canonical, check_opt, write_opt, read_opt,
    lemma_opt_round_trip, lemma_opt_parsed,
};
use crate::codec::varint::{VARINT_LIMIT, varint_wire};
use crate::error::{Error, Fault};
use crate::model::{Location, Parameter, ParameterView};

verus! {

/// PUBLISH_OK: accepts a track that the peer offered.
#[derive(Debug, PartialEq, Eq, Clone)]
pub struct PublishOk {
    pub request_id: u64,
    /// 0 or 1.
    pub forward: u8,
    pub subscriber_priority: u8,
    /// 1 (ascending) or 2 (descending).
    pub group_order: u8,
    /// 1 to 4. Types 3 and 4 carry a start location, type 4 an end group as well.
    pub filter_type: u64,
    pub start: Option<Location>,
    pub end_group: Option<u64>,
    pub parameters: Vec<Parameter>,
}

/// The model of a [`PublishOk`].
pub struct PublishOkView {
    pub request_id: u64,
    pub forward: u8,
    pub subscriber_priority: u8,
    pub group_order: u8,
    pub filter_type: u64,
    pub start: Option<Location>,
    pub end_group: Option<u64>,
    pub parameters: Seq<ParameterView>,
}

impl View for PublishOk {
    type V = PublishOkView;

    open spec fn view(&self) -> PublishOkView {
        PublishOkView {
            request_id: self.request_id,
            forward: self.forward,
            subscriber_priority: self.subscriber_priority,
            group_order: self.group_order,
            filter_type: self.filter_type,
            start: opt_view(self.start),
            end_group: opt_view(self.end_group),
            parameters: views(self.parameters@),
        }
    }
}

impl Encode for PublishOk {
    open spec fn wire(m: PublishOkView) -> Seq<u8> {
        varint_wire(m.request_id)
            + seq![m.forward]
            + seq![m.subscriber_priority]
            + seq![m.group_order]
            + varint_wire(m.filter_type)
            + opt_wire::<Location>(m.filter_type == 3 || m.filter_type == 4, m.start)
            + opt_wire::<u64>(m.filter_type == 4, m.end_group)
            + list_wire::<Parameter>(m.parameters)
    }

    open spec fn refusal(m: PublishOkView) -> Option<Fault> {
        range_refusal(m.request_id as int)
            .otherwise(rule(m.forward <= 1))
            .otherwise(rule(1 <= m.group_order && m.group_order <= 2))
            .otherwise(rule(1 <= m.filter_type && m.filter_type <= 4))
            .otherwise(opt_refusal::<Location>(m.filter_type == 3 || m.filter_type == 4, m.start))
            .otherwise(opt_refusal::<u64>(m.filter_type == 4, m.end_group))
            .otherwise(list_refusal::<Parameter>(m.parameters))
    }

    fn check(&self) -> (r: Result<(), Error>) {
        check_int(self.request_id)?;
        check_rule(self.forward <= 1, "invalid forward value")?;
        check_rule(1 <= self.group_order && self.group_order <= 2, "invalid group order")?;
        check_rule(1 <= self.filter_type && self.filter_type <= 4, "invalid filter type")?;
        check_opt(
            self.filter_type == 3 || self.filter_type == 4,
            &self.start,
            "missing start location",
        )?;
        check_opt(self.filter_type == 4, &self.end_group, "missing end group")?;
        check_list(&self.parameters)
    }

    fn write(&self, out: &mut Vec<u8>) {
        let ghost base = out@;
        let ghost m = self@;
        let ghost w0 = varint_wire(m.request_id);
        let ghost w1 = w0 + seq![m.forward];
        let ghost w2 = w1 + seq![m.subscriber_priority];
        let ghost w3 = w2 + seq![m.group_order];
        let ghost w4 = w3 + varint_wire(m.filter_type);
        let ghost w5 = w4 + opt_wire::<Location>(m.filter_type == 3 || m.filter_type == 4, m.start);
        let ghost w6 = w5 + opt_wire::<u64>(m.filter_type == 4, m.end_group);
        write_int(out, self.request_id);
        write_byte(out, self.forward);
        proof {
            lemma_append(base, w0, seq![m.forward]);
        }
        write_byte(out, self.subscriber_priority);
        proof {
            lemma_append(base, w1, seq![m.subscriber_priority]);
        }
        write_byte(out, self.group_order);
        proof {
            lemma_append(base, w2, seq![m.group_order]);
        }
        write_int(out, self.filter_type);
        proof {
            lemma_append(base, w3, varint_wire(m.filter_type));
        }
        write_opt(out, self.filter_type == 3 || self.filter_type == 4, &self.start);
        proof {
            lemma_append(
                base,
                w4,
                opt_wire::<Location>(m.filter_type == 3 || m.filter_type == 4, m.start),
            );
        }
        write_opt(out, self.filter_type == 4, &self.end_group);
        proof {
            lemma_append(base, w5, opt_wire::<u64>(m.filter_type == 4, m.end_group));
        }
        write_list(out, &self.parameters);
        proof {
            lemma_append(base, w6, list_wire::<Parameter>(m.parameters));
        }
    }
}

impl Decode for PublishOk {
    open spec fn parse(b: Seq<u8>, pos: int) -> Result<(PublishOkView, int), Fault> {
        let request_id = parse_int(b, pos);
        let forward = parse_byte(b, end_of(request_id));
        let subscriber_priority = parse_byte(b, end_of(forward));
        let group_order = parse_byte(b, end_of(subscriber_priority));
        let filter_type = parse_int(b, end_of(group_order));
        let start = parse_opt::<Location>(
            value_of(filter_type) == 3 || value_of(filter_type) == 4,
            b,
            end_of(filter_type),
        );
        let end_group = parse_opt::<u64>(value_of(filter_type) == 4, b, end_of(start));
        let parameters = parse_list::<Parameter>(b, end_of(end_group));
        let fault =
            failure(request_id)
                .otherwise(failure(forward))
                .otherwise(rule(value_of(forward) <= 1))
                .otherwise(failure(subscriber_priority))
                .otherwise(failure(group_order))
                .otherwise(rule(1 <= value_of(group_order) && value_of(group_order) <= 2))
                .otherwise(failure(filter_type))
                .otherwise(rule(1 <= value_of(filter_type) && value_of(filter_type) <= 4))
                .otherwise(failure(start))
                .otherwise(failure(end_group))
                .otherwise(failure(parameters));
        match fault {
            Some(f) => Err(f),
            None => Ok(
                (
                    PublishOkView {
                        request_id: value_of(request_id),
                        forward: value_of(forward),
                        subscriber_priority: value_of(subscriber_priority),
                        group_order: value_of(group_order),
                        filter_type: value_of(filter_type),
                        start: value_of(start),
                        end_group: value_of(end_group),
                        parameters: value_of(parameters),
                    },
                    end_of(parameters),
                ),
            ),
        }
    }

    fn read(src: &[u8], pos: usize) -> (r: Result<(Self, usize), Error>) {
        let (request_id, at) = read_int(src, pos, "request id")?;
        let (forward, at) = read_byte(src, at, "forward")?;
        if !(forward <= 1) {
            return Err(Error::violation("invalid forward value"));
        }
        let (subscriber_priority, at) = read_byte(src, at, "subscriber priority")?;
        let (group_order, at) = read_byte(src, at, "group order")?;
        if !(1 <= group_order && group_order <= 2) {
            return Err(Error::violation("invalid group order"));
        }
        let (filter_type, at) = read_int(src, at, "filter type")?;
        if !(1 <= filter_type && filter_type <= 4) {
            return Err(Error::violation("invalid filter type"));
        }
        let (start, at) = read_opt::<Location>(filter_type == 3 || filter_type == 4, src, at)?;
        let (end_group, at) = read_opt::<u64>(filter_type == 4, src, at)?;
        let (parameters, at) = read_list::<Parameter>(src, at)?;
        Ok(
            (
                PublishOk {
                    request_id,
                    forward,
                    subscriber_priority,
                    group_order,
                    filter_type,
                    start,
                    end_group,
                    parameters,
                },
                at,
            ),
        )
    }
}

impl RoundTrip for PublishOk {
    open spec fn canonical(m: PublishOkView) -> bool {
        &&& m.request_id < VARINT_LIMIT
        &&& m.forward <= 1
        &&& 1 <= m.group_order && m.group_order <= 2
        &&& 1 <= m.filter_type && m.filter_type <= 4
        &&& opt_canonical::<Location>(m.filter_type == 3 || m.filter_type == 4, m.start)
        &&& opt_canonical::<u64>(m.filter_type == 4, m.end_group)
        &&& m.parameters.len() < VARINT_LIMIT
        &&& all_canonical::<Parameter>(m.parameters)
    }

    proof fn lemma_round_trip(m: PublishOkView, b: Seq<u8>, pos: int) {
        let f0 = varint_wire(m.request_id);
        let f1 = seq![m.forward];
        let f2 = seq![m.subscriber_priority];
        let f3 = seq![m.group_order];
        let f4 = varint_wire(m.filter_type);
        let f5 = opt_wire::<Location>(m.filter_type == 3 || m.filter_type == 4, m.start);
        let f6 = opt_wire::<u64>(m.filter_type == 4, m.end_group);
        let f7 = list_wire::<Parameter>(m.parameters);
        let w1 = f0 + f1;
        let w2 = w1 + f2;
        let w3 = w2 + f3;
        let w4 = w3 + f4;
        let w5 = w4 + f5;
        let w6 = w5 + f6;
        lemma_holds_at_concat(b, pos, w6, f7);
        lemma_holds_at_concat(b, pos, w5, f6);
        lemma_holds_at_concat(b, pos, w4, f5);
        lemma_holds_at_concat(b, pos, w3, f4);
        lemma_holds_at_concat(b, pos, w2, f3);
        lemma_holds_at_concat(b, pos, w1, f2);
        lemma_holds_at_concat(b, pos, f0, f1);
        lemma_int_round_trip(m.request_id, b, pos);
        lemma_byte_round_trip(m.forward, b, pos + f0.len());
        lemma_byte_round_trip(m.subscriber_priority, b, pos + w1.len());
        lemma_byte_round_trip(m.group_order, b, pos + w2.len());
        lemma_int_round_trip(m.filter_type, b, pos + w3.len());
        lemma_opt_round_trip::<Location>(
            m.filter_type == 3 || m.filter_type == 4,
            m.start,
            b,
            pos + w4.len(),
        );
        lemma_opt_round_trip::<u64>(m.filter_type == 4, m.end_group, b, pos + w5.len());
        lemma_list_round_trip::<Parameter>(m.parameters, b, pos + w6.len());
    }

    proof fn lemma_parse_canonical(b: Seq<u8>, pos: int) {
        let request_id = parse_int(b, pos);
        let forward = parse_byte(b, end_of(request_id));
        let subscriber_priority = parse_byte(b, end_of(forward));
        let group_order = parse_byte(b, end_of(subscriber_priority));
        let filter_type = parse_int(b, end_of(group_order));
        let start = parse_opt::<Location>(
            value_of(filter_type) == 3 || value_of(filter_type) == 4,
            b,
            end_of(filter_type),
        );
        let end_group = parse_opt::<u64>(value_of(filter_type) == 4, b, end_of(start));
        lemma_int_parsed(b, pos);
        lemma_int_parsed(b, end_of(group_order));
        lemma_opt_parsed::<Location>(
            value_of(filter_type) == 3 || value_of(filter_type) == 4,
            b,
            end_of(filter_type),
        );
        lemma_opt_parsed::<u64>(value_of(filter_type) == 4, b, end_of(start));
        lemma_list_parsed::<Parameter>(b, end_of(end_group));
    }
}

} // verus!
