//! SUBSCRIBE_ANNOUNCES and its payload.

use vstd::prelude::*;
use crate::codec::{Encode, Decode, RoundTrip, views};
use crate::codec::field::{
    InOrder, value_of, end_of, failure, range_refusal, lemma_int_parsed, parse_int, read_int,
    check_int, write_int, lemma_append, lemma_holds_at_concat, lemma_int_round_trip,
};
use crate::codec::list::{
    list_wire, list_refusal, list_refusal_within, parse_list, parse_list_within, all_canonical,
    check_list, check_list_within, write_list, read_list, read_list_within, lemma_list_round_trip,
    lemma_list_within_round_trip, lemma_list_parsed, lemma_list_within_parsed,
};
use crate::codec::varint::{VARINT_LIMIT, varint_wire};
use crate::error::{Error, Fault};
use crate::model::{MIN_NAMESPACE_PARTS, MAX_NAMESPACE_PARTS, Parameter, ParameterView};

verus! {

/// SUBSCRIBE_ANNOUNCES: asks for the announcements under a
/// namespace prefix.
#[derive(Debug, PartialEq, Eq, Clone)]
pub struct SubscribeAnnounces {
    pub request_id: u64,
    /// The parts of the prefix, 1 to 32 of them.
    pub track_namespace_prefix: Vec<String>,
    pub parameters: Vec<Parameter>,
}

/// The model of a [`SubscribeAnnounces`].
pub struct SubscribeAnnouncesView {
    pub request_id: u64,
    pub track_namespace_prefix: Seq<Seq<char>>,
    pub parameters: Seq<ParameterView>,
}

impl View for SubscribeAnnounces {
    type V = SubscribeAnnouncesView;

    open spec fn view(&self) -> SubscribeAnnouncesView {
        SubscribeAnnouncesView {
            request_id: self.request_id,
            track_namespace_prefix: views(self.track_namespace_prefix@),
            parameters: views(self.parameters@),
        }
    }
}

impl Encode for SubscribeAnnounces {
    open spec fn wire(m: SubscribeAnnouncesView) -> Seq<u8> {
        varint_wire(m.request_id)
            + list_wire::<String>(m.track_namespace_prefix)
            + list_wire::<Parameter>(m.parameters)
    }

    open spec fn refusal(m: SubscribeAnnouncesView) -> Option<Fault> {
        range_refusal(m.request_id as int)
            .otherwise(
                list_refusal_within::<String>(
                    m.track_namespace_prefix,
                    MIN_NAMESPACE_PARTS,
                    MAX_NAMESPACE_PARTS,
                ),
            )
            .otherwise(list_refusal::<Parameter>(m.parameters))
    }

    fn check(&self) -> (r: Result<(), Error>) {
        check_int(self.request_id)?;
        check_list_within(
            &self.track_namespace_prefix,
            MIN_NAMESPACE_PARTS,
            MAX_NAMESPACE_PARTS,
            "invalid prefix length",
        )?;
        check_list(&self.parameters)
    }

    fn write(&self, out: &mut Vec<u8>) {
        let ghost base = out@;
        let ghost m = self@;
        let ghost w0 = varint_wire(m.request_id);
        let ghost w1 = w0 + list_wire::<String>(m.track_namespace_prefix);
        write_int(out, self.request_id);
        write_list(out, &self.track_namespace_prefix);
        proof {
            lemma_append(base, w0, list_wire::<String>(m.track_namespace_prefix));
        }
        write_list(out, &self.parameters);
        proof {
            lemma_append(base, w1, list_wire::<Parameter>(m.parameters));
        }
    }
}

impl Decode for SubscribeAnnounces {
    open spec fn parse(b: Seq<u8>, pos: int) -> Result<(SubscribeAnnouncesView, int), Fault> {
        let request_id = parse_int(b, pos);
        let track_namespace_prefix = parse_list_within::<String>(
            b,
            end_of(request_id),
            MIN_NAMESPACE_PARTS,
            MAX_NAMESPACE_PARTS,
        );
        let parameters = parse_list::<Parameter>(b, end_of(track_namespace_prefix));
        let fault =
            failure(request_id)
                .otherwise(failure(track_namespace_prefix))
                .otherwise(failure(parameters));
        match fault {
            Some(f) => Err(f),
            None => Ok(
                (
                    SubscribeAnnouncesView {
                        request_id: value_of(request_id),
                        track_namespace_prefix: value_of(track_namespace_prefix),
                        parameters: value_of(parameters),
                    },
                    end_of(parameters),
                ),
            ),
        }
    }

    fn read(src: &[u8], pos: usize) -> (r: Result<(Self, usize), Error>) {
        let (request_id, at) = read_int(src, pos, "request id")?;
        let (track_namespace_prefix, at) = read_list_within::<String>(
            src,
            at,
            MIN_NAMESPACE_PARTS,
            MAX_NAMESPACE_PARTS,
            "invalid prefix length",
        )?;
        let (parameters, at) = read_list::<Parameter>(src, at)?;
        Ok((SubscribeAnnounces { request_id, track_namespace_prefix, parameters }, at))
    }
}

impl RoundTrip for SubscribeAnnounces {
    open spec fn canonical(m: SubscribeAnnouncesView) -> bool {
        &&& m.request_id < VARINT_LIMIT
        &&& MIN_NAMESPACE_PARTS <= m.track_namespace_prefix.len() <= MAX_NAMESPACE_PARTS
        &&& all_canonical::<String>(m.track_namespace_prefix)
        &&& m.parameters.len() < VARINT_LIMIT
        &&& all_canonical::<Parameter>(m.parameters)
    }

    proof fn lemma_round_trip(m: SubscribeAnnouncesView, b: Seq<u8>, pos: int) {
        let f0 = varint_wire(m.request_id);
        let f1 = list_wire::<String>(m.track_namespace_prefix);
        let f2 = list_wire::<Parameter>(m.parameters);
        let w1 = f0 + f1;
        lemma_holds_at_concat(b, pos, w1, f2);
        lemma_holds_at_concat(b, pos, f0, f1);
        lemma_int_round_trip(m.request_id, b, pos);
        lemma_list_within_round_trip::<String>(
            m.track_namespace_prefix,
            MIN_NAMESPACE_PARTS,
            MAX_NAMESPACE_PARTS,
            b,
            pos + f0.len(),
        );
        lemma_list_round_trip::<Parameter>(m.parameters, b, pos + w1.len());
    }

    proof fn lemma_parse_canonical(b: Seq<u8>, pos: int) {
        let request_id = parse_int(b, pos);
        let track_namespace_prefix = parse_list_within::<String>(
            b,
            end_of(request_id),
            MIN_NAMESPACE_PARTS,
            MAX_NAMESPACE_PARTS,
        );
        lemma_int_parsed(b, pos);
        lemma_list_within_parsed::<String>(
            b,
            end_of(request_id),
            MIN_NAMESPACE_PARTS,
            MAX_NAMESPACE_PARTS,
        );
        lemma_list_parsed::<Parameter>(b, end_of(track_namespace_prefix));
    }
}

} // verus!
