//! PUBLISH and its payload.

use vstd::prelude::*;
use crate::codec::{Encode, Decode, RoundTrip, views};
use crate::codec::field::{
    InOrder, value_of, end_of, failure, range_refusal, rule, lemma_int_parsed, parse_int,
    parse_byte, read_int, read_byte, check_int, check_rule, write_int, write_byte, lemma_append,
    lemma_holds_at_concat, lemma_int_round_trip, lemma_byte_round_trip,
};
use crate::codec::list::{
    list_wire, list_refusal, parse_list, all_canonical, check_list, write_list, read_list,
    lemma_list_round_trip, lemma_list_parsed,
};
use crate::codec::optional::{
    opt_view, opt_wire, opt_refusal, parse_opt, opt_canonical, check_opt, write_opt, read_opt,
    lemma_opt_round_trip, lemma_opt_parsed,
};
use crate::codec::varint::{VARINT_LIMIT, varint_wire};
use crate::error::{Error, Fault};
use crate::model::{Location, Parameter, ParameterView};

verus! {

/// PUBLISH: offers a track to the peer.
#[derive(Debug, PartialEq, Eq, Clone)]
pub struct Publish {
    pub request_id: u64,
    pub track_namespace: u64,
    pub track_name: String,
    pub track_alias: u64,
    /// 1 (ascending) or 2 (descending).
    pub group_order: u8,
    /// 0 or 1.
    pub content_exists: u8,
    /// Present exactly where `content_exists` is 1.
    pub largest: Option<Location>,
    /// 0 or 1.
    pub forward: u8,
    pub parameters: Vec<Parameter>,
}

/// The model of a [`Publish`].
pub struct PublishView {
    pub request_id: u64,
    pub track_namespace: u64,
    pub track_name: Seq<char>,
    pub track_alias: u64,
    pub group_order: u8,
    pub content_exists: u8,
    pub largest: Option<Location>,
    pub forward: u8,
    pub parameters: Seq<ParameterView>,
}

impl View for Publish {
    type V = PublishView;

    open spec fn view(&self) -> PublishView {
        PublishView {
            request_id: self.request_id,
            track_namespace: self.track_namespace,
            track_name: self.track_name@,
            track_alias: self.track_alias,
            group_order: self.group_order,
            content_exists: self.content_exists,
            largest: opt_view(self.largest),
            forward: self.forward,
            parameters: views(self.parameters@),
        }
    }
}

impl Encode for Publish {
    open spec fn wire(m: PublishView) -> Seq<u8> {
        varint_wire(m.request_id)
            + varint_wire(m.track_namespace)
            + String::wire(m.track_name)
            + varint_wire(m.track_alias)
            + seq![m.group_order]
            + seq![m.content_exists]
            + opt_wire::<Location>(m.content_exists == 1, m.largest)
            + seq![m.forward]
            + list_wire::<Parameter>(m.parameters)
    }

    open spec fn refusal(m: PublishView) -> Option<Fault> {
        range_refusal(m.request_id as int)
            .otherwise(range_refusal(m.track_namespace as int))
            .otherwise(String::refusal(m.track_name))
            .otherwise(range_refusal(m.track_alias as int))
            .otherwise(rule(1 <= m.group_order && m.group_order <= 2))
            .otherwise(rule(m.content_exists <= 1))
            .otherwise(opt_refusal::<Location>(m.content_exists == 1, m.largest))
            .otherwise(rule(m.forward <= 1))
            .otherwise(list_refusal::<Parameter>(m.parameters))
    }

    fn check(&self) -> (r: Result<(), Error>) {
        check_int(self.request_id)?;
        check_int(self.track_namespace)?;
        self.track_name.check()?;
        check_int(self.track_alias)?;
        check_rule(1 <= self.group_order && self.group_order <= 2, "invalid group order")?;
        check_rule(self.content_exists <= 1, "invalid content exists value")?;
        check_opt(self.content_exists == 1, &self.largest, "missing largest location")?;
        check_rule(self.forward <= 1, "invalid forward value")?;
        check_list(&self.parameters)
    }

    fn write(&self, out: &mut Vec<u8>) {
        let ghost base = out@;
        let ghost m = self@;
        let ghost w0 = varint_wire(m.request_id);
        let ghost w1 = w0 + varint_wire(m.track_namespace);
        let ghost w2 = w1 + String::wire(m.track_name);
        let ghost w3 = w2 + varint_wire(m.track_alias);
        let ghost w4 = w3 + seq![m.group_order];
        let ghost w5 = w4 + seq![m.content_exists];
        let ghost w6 = w5 + opt_wire::<Location>(m.content_exists == 1, m.largest);
        let ghost w7 = w6 + seq![m.forward];
        write_int(out, self.request_id);
        write_int(out, self.track_namespace);
        proof {
            lemma_append(base, w0, varint_wire(m.track_namespace));
        }
        self.track_name.write(out);
        proof {
            lemma_append(base, w1, String::wire(m.track_name));
        }
        write_int(out, self.track_alias);
        proof {
            lemma_append(base, w2, varint_wire(m.track_alias));
        }
        write_byte(out, self.group_order);
        proof {
            lemma_append(base, w3, seq![m.group_order]);
        }
        write_byte(out, self.content_exists);
        proof {
            lemma_append(base, w4, seq![m.content_exists]);
        }
        write_opt(out, self.content_exists == 1, &self.largest);
        proof {
            lemma_append(base, w5, opt_wire::<Location>(m.content_exists == 1, m.largest));
        }
        write_byte(out, self.forward);
        proof {
            lemma_append(base, w6, seq![m.forward]);
        }
        write_list(out, &self.parameters);
        proof {
            lemma_append(base, w7, list_wire::<Parameter>(m.parameters));
        }
    }
}

impl Decode for Publish {
    open spec fn parse(b: Seq<u8>, pos: int) -> Result<(PublishView, int), Fault> {
        let request_id = parse_int(b, pos);
        let track_namespace = parse_int(b, end_of(request_id));
        let track_name = String::parse(b, end_of(track_namespace));
        let track_alias = parse_int(b, end_of(track_name));
        let group_order = parse_byte(b, end_of(track_alias));
        let content_exists = parse_byte(b, end_of(group_order));
        let largest = parse_opt::<Location>(
            value_of(content_exists) == 1,
            b,
            end_of(content_exists),
        );
        let forward = parse_byte(b, end_of(largest));
        let parameters = parse_list::<Parameter>(b, end_of(forward));
        let fault =
            failure(request_id)
                .otherwise(failure(track_namespace))
                .otherwise(failure(track_name))
                .otherwise(failure(track_alias))
                .otherwise(failure(group_order))
                .otherwise(rule(1 <= value_of(group_order) && value_of(group_order) <= 2))
                .otherwise(failure(content_exists))
                .otherwise(rule(value_of(content_exists) <= 1))
                .otherwise(failure(largest))
                .otherwise(failure(forward))
                .otherwise(rule(value_of(forward) <= 1))
                .otherwise(failure(parameters));
        match fault {
            Some(f) => Err(f),
            None => Ok(
                (
                    PublishView {
                        request_id: value_of(request_id),
                        track_namespace: value_of(track_namespace),
                        track_name: value_of(track_name),
                        track_alias: value_of(track_alias),
                        group_order: value_of(group_order),
                        content_exists: value_of(content_exists),
                        largest: value_of(largest),
                        forward: value_of(forward),
                        parameters: value_of(parameters),
                    },
                    end_of(parameters),
                ),
            ),
        }
    }

    fn read(src: &[u8], pos: usize) -> (r: Result<(Self, usize), Error>) {
        let (request_id, at) = read_int(src, pos, "request id")?;
        let (track_namespace, at) = read_int(src, at, "track namespace")?;
        let (track_name, at) = String::read(src, at)?;
        let (track_alias, at) = read_int(src, at, "track alias")?;
        let (group_order, at) = read_byte(src, at, "group order")?;
        if !(1 <= group_order && group_order <= 2) {
            return Err(Error::violation("invalid group order"));
        }
        let (content_exists, at) = read_byte(src, at, "content exists")?;
        if !(content_exists <= 1) {
            return Err(Error::violation("invalid content exists value"));
        }
        let (largest, at) = read_opt::<Location>(content_exists == 1, src, at)?;
        let (forward, at) = read_byte(src, at, "forward")?;
        if !(forward <= 1) {
            return Err(Error::violation("invalid forward value"));
        }
        let (parameters, at) = read_list::<Parameter>(src, at)?;
        Ok(
            (
                Publish {
                    request_id,
                    track_namespace,
                    track_name,
                    track_alias,
                    group_order,
                    content_exists,
                    largest,
                    forward,
                    parameters,
                },
                at,
            ),
        )
    }
}

impl RoundTrip for Publish {
    open spec fn canonical(m: PublishView) -> bool {
        &&& m.request_id < VARINT_LIMIT
        &&& m.track_namespace < VARINT_LIMIT
        &&& String::canonical(m.track_name)
        &&& m.track_alias < VARINT_LIMIT
        &&& 1 <= m.group_order && m.group_order <= 2
        &&& m.content_exists <= 1
        &&& opt_canonical::<Location>(m.content_exists == 1, m.largest)
        &&& m.forward <= 1
        &&& m.parameters.len() < VARINT_LIMIT
        &&& all_canonical::<Parameter>(m.parameters)
    }

    proof fn lemma_round_trip(m: PublishView, b: Seq<u8>, pos: int) {
        let f0 = varint_wire(m.request_id);
        let f1 = varint_wire(m.track_namespace);
        let f2 = String::wire(m.track_name);
        let f3 = varint_wire(m.track_alias);
        let f4 = seq![m.group_order];
        let f5 = seq![m.content_exists];
        let f6 = opt_wire::<Location>(m.content_exists == 1, m.largest);
        let f7 = seq![m.forward];
        let f8 = list_wire::<Parameter>(m.parameters);
        let w1 = f0 + f1;
        let w2 = w1 + f2;
        let w3 = w2 + f3;
        let w4 = w3 + f4;
        let w5 = w4 + f5;
        let w6 = w5 + f6;
        let w7 = w6 + f7;
        lemma_holds_at_concat(b, pos, w7, f8);
        lemma_holds_at_concat(b, pos, w6, f7);
        lemma_holds_at_concat(b, pos, w5, f6);
        lemma_holds_at_concat(b, pos, w4, f5);
        lemma_holds_at_concat(b, pos, w3, f4);
        lemma_holds_at_concat(b, pos, w2, f3);
        lemma_holds_at_concat(b, pos, w1, f2);
        lemma_holds_at_concat(b, pos, f0, f1);
        lemma_int_round_trip(m.request_id, b, pos);
        lemma_int_round_trip(m.track_namespace, b, pos + f0.len());
        String::lemma_round_trip(m.track_name, b, pos + w1.len());
        lemma_int_round_trip(m.track_alias, b, pos + w2.len());
        lemma_byte_round_trip(m.group_order, b, pos + w3.len());
        lemma_byte_round_trip(m.content_exists, b, pos + w4.len());
        lemma_opt_round_trip::<Location>(m.content_exists == 1, m.largest, b, pos + w5.len());
        lemma_byte_round_trip(m.forward, b, pos + w6.len());
        lemma_list_round_trip::<Parameter>(m.parameters, b, pos + w7.len());
    }

    proof fn lemma_parse_canonical(b: Seq<u8>, pos: int) {
        let request_id = parse_int(b, pos);
        let track_namespace = parse_int(b, end_of(request_id));
        let track_name = String::parse(b, end_of(track_namespace));
        let track_alias = parse_int(b, end_of(track_name));
        let group_order = parse_byte(b, end_of(track_alias));
        let content_exists = parse_byte(b, end_of(group_order));
        let largest = parse_opt::<Location>(
            value_of(content_exists) == 1,
            b,
            end_of(content_exists),
        );
        let forward = parse_byte(b, end_of(largest));
        lemma_int_parsed(b, pos);
        lemma_int_parsed(b, end_of(request_id));
        String::lemma_parse_canonical(b, end_of(track_namespace));
        lemma_int_parsed(b, end_of(track_name));
        lemma_opt_parsed::<Location>(value_of(content_exists) == 1, b, end_of(content_exists));
        lemma_list_parsed::<Parameter>(b, end_of(forward));
    }
}

} // verus!
