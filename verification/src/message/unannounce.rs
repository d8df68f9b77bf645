//! UNANNOUNCE and its payload.

use vstd::prelude::*;
use crate::codec::{Encode, Decode, RoundTrip};
use crate::codec::field::{
    value_of, end_of, failure, range_refusal, lemma_int_parsed, parse_int, read_int, check_int,
    write_int, lemma_int_round_trip,
};
use crate::codec::varint::{VARINT_LIMIT, varint_wire};
use crate::error::{Error, Fault};

verus! {

/// UNANNOUNCE: withdraws an announcement.
#[derive(Debug, PartialEq, Eq, Clone)]
pub struct Unannounce {
    pub track_namespace: u64,
}

impl View for Unannounce {
    type V = Unannounce;

    open spec fn view(&self) -> Unannounce {
        *self
    }
}

impl Encode for Unannounce {
    open spec fn wire(m: Unannounce) -> Seq<u8> {
        varint_wire(m.track_namespace)
    }

    open spec fn refusal(m: Unannounce) -> Option<Fault> {
        range_refusal(m.track_namespace as int)
    }

    fn check(&self) -> (r: Result<(), Error>) {
        check_int(self.track_namespace)
    }

    fn write(&self, out: &mut Vec<u8>) {
        write_int(out, self.track_namespace);
    }
}

impl Decode for Unannounce {
    open spec fn parse(b: Seq<u8>, pos: int) -> Result<(Unannounce, int), Fault> {
        let track_namespace = parse_int(b, pos);
        let fault =
            failure(track_namespace);
        match fault {
            Some(f) => Err(f),
            None => Ok(
                (
                    Unannounce {
                        track_namespace: value_of(track_namespace),
                    },
                    end_of(track_namespace),
                ),
            ),
        }
    }

    fn read(src: &[u8], pos: usize) -> (r: Result<(Self, usize), Error>) {
        let (track_namespace, at) = read_int(src, pos, "track namespace")?;
        Ok((Unannounce { track_namespace }, at))
    }
}

impl RoundTrip for Unannounce {
    open spec fn canonical(m: Unannounce) -> bool {
        &&& m.track_namespace < VARINT_LIMIT
    }

    proof fn lemma_round_trip(m: Unannounce, b: Seq<u8>, pos: int) {
        lemma_int_round_trip(m.track_namespace, b, pos);
    }

    proof fn lemma_parse_canonical(b: Seq<u8>, pos: int) {
        lemma_int_parsed(b, pos);
    }
}

} // verus!
