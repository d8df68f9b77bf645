//! SUBSCRIBE_OK and its payload.

use vstd::prelude::*;
use crate::codec::{Encode, Decode, RoundTrip, views};
use crate::codec::field::{
    InOrder, value_of, end_of, failure, range_refusal, rule, lemma_int_parsed, parse_int,
    parse_byte, parse_flag, read_int, read_byte, read_flag, check_int, check_rule, write_int,
    write_byte, write_flag, flag_wire, lemma_append, lemma_holds_at_concat, lemma_int_round_trip,
    lemma_byte_round_trip, lemma_flag_round_trip,
};
use crate::codec::list::{
    list_wire, list_refusal, parse_list, all_canonical, check_list, write_list, read_list,
    lemma_list_round_trip, lemma_list_parsed,
};
use crate::codec::optional::{
    opt_view, opt_wire, opt_refusal, parse_opt, opt_canonical, check_opt, write_opt, read_opt,
    lemma_opt_round_trip, lemma_opt_parsed,
};
use crate::codec::varint::{VARINT_LIMIT, varint_wire};
use crate::error::{Error, Fault};
use crate::model::{Location, Parameter, ParameterView};

verus! {

/// SUBSCRIBE_OK: accepts a subscription and binds the track to an
/// alias.
#[derive(Debug, PartialEq, Eq, Clone)]
pub struct SubscribeOk {
    pub request_id: u64,
    pub track_alias: u64,
    pub expires: u64,
    /// 1 (ascending) or 2 (descending).
    pub group_order: u8,
    pub content_exists: bool,
    /// Present exactly where `content_exists` is set.
    pub largest_location: Option<Location>,
    pub parameters: Vec<Parameter>,
}

/// The model of a [`SubscribeOk`].
pub struct SubscribeOkView {
    pub request_id: u64,
    pub track_alias: u64,
    pub expires: u64,
    pub group_order: u8,
    pub content_exists: bool,
    pub largest_location: Option<Location>,
    pub parameters: Seq<ParameterView>,
}

impl View for SubscribeOk {
    type V = SubscribeOkView;

    open spec fn view(&self) -> SubscribeOkView {
        SubscribeOkView {
            request_id: self.request_id,
            track_alias: self.track_alias,
            expires: self.expires,
            group_order: self.group_order,
            content_exists: self.content_exists,
            largest_location: opt_view(self.largest_location),
            parameters: views(self.parameters@),
        }
    }
}

impl Encode for SubscribeOk {
    open spec fn wire(m: SubscribeOkView) -> Seq<u8> {
        varint_wire(m.request_id)
            + varint_wire(m.track_alias)
            + varint_wire(m.expires)
            + seq![m.group_order]
            + flag_wire(m.content_exists)
            + opt_wire::<Location>(m.content_exists, m.largest_location)
            + list_wire::<Parameter>(m.parameters)
    }

    open spec fn refusal(m: SubscribeOkView) -> Option<Fault> {
        range_refusal(m.request_id as int)
            .otherwise(range_refusal(m.track_alias as int))
            .otherwise(range_refusal(m.expires as int))
            .otherwise(rule(1 <= m.group_order && m.group_order <= 2))
            .otherwise(opt_refusal::<Location>(m.content_exists, m.largest_location))
            .otherwise(list_refusal::<Parameter>(m.parameters))
    }

    fn check(&self) -> (r: Result<(), Error>) {
        check_int(self.request_id)?;
        check_int(self.track_alias)?;
        check_int(self.expires)?;
        check_rule(1 <= self.group_order && self.group_order <= 2, "invalid group order")?;
        check_opt(self.content_exists, &self.largest_location, "missing largest location")?;
        check_list(&self.parameters)
    }

    fn write(&self, out: &mut Vec<u8>) {
        let ghost base = out@;
        let ghost m = self@;
        let ghost w0 = varint_wire(m.request_id);
        let ghost w1 = w0 + varint_wire(m.track_alias);
        let ghost w2 = w1 + varint_wire(m.expires);
        let ghost w3 = w2 + seq![m.group_order];
        let ghost w4 = w3 + flag_wire(m.content_exists);
        let ghost w5 = w4 + opt_wire::<Location>(m.content_exists, m.largest_location);
        write_int(out, self.request_id);
        write_int(out, self.track_alias);
        proof {
            lemma_append(base, w0, varint_wire(m.track_alias));
        }
        write_int(out, self.expires);
        proof {
            lemma_append(base, w1, varint_wire(m.expires));
        }
        write_byte(out, self.group_order);
        proof {
            lemma_append(base, w2, seq![m.group_order]);
        }
        write_flag(out, self.content_exists);
        proof {
            lemma_append(base, w3, flag_wire(m.content_exists));
        }
        write_opt(out, self.content_exists, &self.largest_location);
        proof {
            lemma_append(base, w4, opt_wire::<Location>(m.content_exists, m.largest_location));
        }
        write_list(out, &self.parameters);
        proof {
            lemma_append(base, w5, list_wire::<Parameter>(m.parameters));
        }
    }
}

impl Decode for SubscribeOk {
    open spec fn parse(b: Seq<u8>, pos: int) -> Result<(SubscribeOkView, int), Fault> {
        let request_id = parse_int(b, pos);
        let track_alias = parse_int(b, end_of(request_id));
        let expires = parse_int(b, end_of(track_alias));
        let group_order = parse_byte(b, end_of(expires));
        let content_exists = parse_flag(b, end_of(group_order));
        let largest_location = parse_opt::<Location>(
            value_of(content_exists),
            b,
            end_of(content_exists),
        );
        let parameters = parse_list::<Parameter>(b, end_of(largest_location));
        let fault =
            failure(request_id)
                .otherwise(failure(track_alias))
                .otherwise(failure(expires))
                .otherwise(failure(group_order))
                .otherwise(rule(1 <= value_of(group_order) && value_of(group_order) <= 2))
                .otherwise(failure(content_exists))
                .otherwise(failure(largest_location))
                .otherwise(failure(parameters));
        match fault {
            Some(f) => Err(f),
            None => Ok(
                (
                    SubscribeOkView {
                        request_id: value_of(request_id),
                        track_alias: value_of(track_alias),
                        expires: value_of(expires),
                        group_order: value_of(group_order),
                        content_exists: value_of(content_exists),
                        largest_location: value_of(largest_location),
                        parameters: value_of(parameters),
                    },
                    end_of(parameters),
                ),
            ),
        }
    }

    fn read(src: &[u8], pos: usize) -> (r: Result<(Self, usize), Error>) {
        let (request_id, at) = read_int(src, pos, "request id")?;
        let (track_alias, at) = read_int(src, at, "track alias")?;
        let (expires, at) = read_int(src, at, "expires")?;
        let (group_order, at) = read_byte(src, at, "group order")?;
        if !(1 <= group_order && group_order <= 2) {
            return Err(Error::violation("invalid group order"));
        }
        let (content_exists, at) = read_flag(src, at, "content exists")?;
        let (largest_location, at) = read_opt::<Location>(content_exists, src, at)?;
        let (parameters, at) = read_list::<Parameter>(src, at)?;
        Ok(
            (
                SubscribeOk {
                    request_id,
                    track_alias,
                    expires,
                    group_order,
                    content_exists,
                    largest_location,
                    parameters,
                },
                at,
            ),
        )
    }
}

impl RoundTrip for SubscribeOk {
    open spec fn canonical(m: SubscribeOkView) -> bool {
        &&& m.request_id < VARINT_LIMIT
        &&& m.track_alias < VARINT_LIMIT
        &&& m.expires < VARINT_LIMIT
        &&& 1 <= m.group_order && m.group_order <= 2
        &&& opt_canonical::<Location>(m.content_exists, m.largest_location)
        &&& m.parameters.len() < VARINT_LIMIT
        &&& all_canonical::<Parameter>(m.parameters)
    }

    proof fn lemma_round_trip(m: SubscribeOkView, b: Seq<u8>, pos: int) {
        let f0 = varint_wire(m.request_id);
        let f1 = varint_wire(m.track_alias);
        let f2 = varint_wire(m.expires);
        let f3 = seq![m.group_order];
        let f4 = flag_wire(m.content_exists);
        let f5 = opt_wire::<Location>(m.content_exists, m.largest_location);
        let f6 = list_wire::<Parameter>(m.parameters);
        let w1 = f0 + f1;
        let w2 = w1 + f2;
        let w3 = w2 + f3;
        let w4 = w3 + f4;
        let w5 = w4 + f5;
        lemma_holds_at_concat(b, pos, w5, f6);
        lemma_holds_at_concat(b, pos, w4, f5);
        lemma_holds_at_concat(b, pos, w3, f4);
        lemma_holds_at_concat(b, pos, w2, f3);
        lemma_holds_at_concat(b, pos, w1, f2);
        lemma_holds_at_concat(b, pos, f0, f1);
        lemma_int_round_trip(m.request_id, b, pos);
        lemma_int_round_trip(m.track_alias, b, pos + f0.len());
        lemma_int_round_trip(m.expires, b, pos + w1.len());
        lemma_byte_round_trip(m.group_order, b, pos + w2.len());
        lemma_flag_round_trip(m.content_exists, b, pos + w3.len());
        lemma_opt_round_trip::<Location>(m.content_exists, m.largest_location, b, pos + w4.len());
        lemma_list_round_trip::<Parameter>(m.parameters, b, pos + w5.len());
    }

    proof fn lemma_parse_canonical(b: Seq<u8>, pos: int) {
        let request_id = parse_int(b, pos);
        let track_alias = parse_int(b, end_of(request_id));
        let expires = parse_int(b, end_of(track_alias));
        let group_order = parse_byte(b, end_of(expires));
        let content_exists = parse_flag(b, end_of(group_order));
        let largest_location = parse_opt::<Location>(
            value_of(content_exists),
            b,
            end_of(content_exists),
        );
        lemma_int_parsed(b, pos);
        lemma_int_parsed(b, end_of(request_id));
        lemma_int_parsed(b, end_of(track_alias));
        lemma_opt_parsed::<Location>(value_of(content_exists), b, end_of(content_exists));
        lemma_list_parsed::<Parameter>(b, end_of(largest_location));
    }
}

} // verus!
