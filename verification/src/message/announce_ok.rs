//! ANNOUNCE_OK and its payload.

use vstd::prelude::*;
use crate::codec::{Encode, Decode, RoundTrip};
use crate::codec::field::{
    value_of, end_of, failure, range_refusal, lemma_int_parsed, parse_int, read_int, check_int,
    write_int, lemma_int_round_trip,
};
use crate::codec::varint::{VARINT_LIMIT, varint_wire};
use crate::error::{Error, Fault};

verus! {

/// ANNOUNCE_OK: accepts an announcement.
#[derive(Debug, PartialEq, Eq, Clone)]
pub struct AnnounceOk {
    pub request_id: u64,
}

impl View for AnnounceOk {
    type V = AnnounceOk;

    open spec fn view(&self) -> AnnounceOk {
        *self
    }
}

impl Encode for AnnounceOk {
    open spec fn wire(m: AnnounceOk) -> Seq<u8> {
        varint_wire(m.request_id)
    }

    open spec fn refusal(m: AnnounceOk) -> Option<Fault> {
        range_refusal(m.request_id as int)
    }

    fn check(&self) -> (r: Result<(), Error>) {
        check_int(self.request_id)
    }

    fn write(&self, out: &mut Vec<u8>) {
        write_int(out, self.request_id);
    }
}

impl Decode for AnnounceOk {
    open spec fn parse(b: Seq<u8>, pos: int) -> Result<(AnnounceOk, int), Fault> {
        let request_id = parse_int(b, pos);
        let fault =
            failure(request_id);
        match fault {
            Some(f) => Err(f),
            None => Ok(
                (
                    AnnounceOk {
                        request_id: value_of(request_id),
                    },
                    end_of(request_id),
                ),
            ),
        }
    }

    fn read(src: &[u8], pos: usize) -> (r: Result<(Self, usize), Error>) {
        let (request_id, at) = read_int(src, pos, "request id")?;
        Ok((AnnounceOk { request_id }, at))
    }
}

impl RoundTrip for AnnounceOk {
    open spec fn canonical(m: AnnounceOk) -> bool {
        &&& m.request_id < VARINT_LIMIT
    }

    proof fn lemma_round_trip(m: AnnounceOk, b: Seq<u8>, pos: int) {
        lemma_int_round_trip(m.request_id, b, pos);
    }

    proof fn lemma_parse_canonical(b: Seq<u8>, pos: int) {
        lemma_int_parsed(b, pos);
    }
}

} // verus!
