//! UNSUBSCRIBE_ANNOUNCES and its payload.

use vstd::prelude::*;
use crate::codec::{Encode, Decode, RoundTrip};
use crate::codec::field::{
    InOrder, value_of, end_of, failure, range_refusal, lemma_int_parsed, parse_int, read_int,
    check_int, write_int, lemma_append, lemma_holds_at_concat, lemma_int_round_trip,
};
use crate::codec::varint::{VARINT_LIMIT, varint_wire};
use crate::error::{Error, Fault};

verus! {

/// UNSUBSCRIBE_ANNOUNCES: ends a subscription to
/// announcements.
#[derive(Debug, PartialEq, Eq, Clone)]
pub struct UnsubscribeAnnounces {
    pub track_namespace: u64,
    pub track_name_prefix: String,
}

/// The model of a [`UnsubscribeAnnounces`].
pub struct UnsubscribeAnnouncesView {
    pub track_namespace: u64,
    pub track_name_prefix: Seq<char>,
}

impl View for UnsubscribeAnnounces {
    type V = UnsubscribeAnnouncesView;

    open spec fn view(&self) -> UnsubscribeAnnouncesView {
        UnsubscribeAnnouncesView {
            track_namespace: self.track_namespace,
            track_name_prefix: self.track_name_prefix@,
        }
    }
}

impl Encode for UnsubscribeAnnounces {
    open spec fn wire(m: UnsubscribeAnnouncesView) -> Seq<u8> {
        varint_wire(m.track_namespace)
            + String::wire(m.track_name_prefix)
    }

    open spec fn refusal(m: UnsubscribeAnnouncesView) -> Option<Fault> {
        range_refusal(m.track_namespace as int)
            .otherwise(String::refusal(m.track_name_prefix))
    }

    fn check(&self) -> (r: Result<(), Error>) {
        check_int(self.track_namespace)?;
        self.track_name_prefix.check()
    }

    fn write(&self, out: &mut Vec<u8>) {
        let ghost base = out@;
        let ghost m = self@;
        let ghost w0 = varint_wire(m.track_namespace);
        write_int(out, self.track_namespace);
        self.track_name_prefix.write(out);
        proof {
            lemma_append(base, w0, String::wire(m.track_name_prefix));
        }
    }
}

impl Decode for UnsubscribeAnnounces {
    open spec fn parse(b: Seq<u8>, pos: int) -> Result<(UnsubscribeAnnouncesView, int), Fault> {
        let track_namespace = parse_int(b, pos);
        let track_name_prefix = String::parse(b, end_of(track_namespace));
        let fault =
            failure(track_namespace)
                .otherwise(failure(track_name_prefix));
        match fault {
            Some(f) => Err(f),
            None => Ok(
                (
                    UnsubscribeAnnouncesView {
                        track_namespace: value_of(track_namespace),
                        track_name_prefix: value_of(track_name_prefix),
                    },
                    end_of(track_name_prefix),
                ),
            ),
        }
    }

    fn read(src: &[u8], pos: usize) -> (r: Result<(Self, usize), Error>) {
        let (track_namespace, at) = read_int(src, pos, "track namespace")?;
        let (track_name_prefix, at) = String::read(src, at)?;
        Ok((UnsubscribeAnnounces { track_namespace, track_name_prefix }, at))
    }
}

impl RoundTrip for UnsubscribeAnnounces {
    open spec fn canonical(m: UnsubscribeAnnouncesView) -> bool {
        &&& m.track_namespace < VARINT_LIMIT
        &&& String::canonical(m.track_name_prefix)
    }

    proof fn lemma_round_trip(m: UnsubscribeAnnouncesView, b: Seq<u8>, pos: int) {
        let f0 = varint_wire(m.track_namespace);
        let f1 = String::wire(m.track_name_prefix);
        lemma_holds_at_concat(b, pos, f0, f1);
        lemma_int_round_trip(m.track_namespace, b, pos);
        String::lemma_round_trip(m.track_name_prefix, b, pos + f0.len());
    }

    proof fn lemma_parse_canonical(b: Seq<u8>, pos: int) {
        let track_namespace = parse_int(b, pos);
        lemma_int_parsed(b, pos);
        String::lemma_parse_canonical(b, end_of(track_namespace));
    }
}

} // verus!
