//! REQUESTS_BLOCKED and its payload.

use vstd::prelude::*;
use crate::codec::{Encode, Decode, RoundTrip};
use crate::codec::field::{
    value_of, end_of, failure, range_refusal, lemma_int_parsed, parse_int, read_int, check_int,
    write_int, lemma_int_round_trip,
};
use crate::codec::varint::{VARINT_LIMIT, varint_wire};
use crate::error::{Error, Fault};

verus! {

/// REQUESTS_BLOCKED: tells the peer that a request is waiting for
/// a higher maximum request ID.
#[derive(Debug, PartialEq, Eq, Clone)]
pub struct RequestsBlocked {
    pub maximum_request_id: u64,
}

impl View for RequestsBlocked {
    type V = RequestsBlocked;

    open spec fn view(&self) -> RequestsBlocked {
        *self
    }
}

impl Encode for RequestsBlocked {
    open spec fn wire(m: RequestsBlocked) -> Seq<u8> {
        varint_wire(m.maximum_request_id)
    }

    open spec fn refusal(m: RequestsBlocked) -> Option<Fault> {
        range_refusal(m.maximum_request_id as int)
    }

    fn check(&self) -> (r: Result<(), Error>) {
        check_int(self.maximum_request_id)
    }

    fn write(&self, out: &mut Vec<u8>) {
        write_int(out, self.maximum_request_id);
    }
}

impl Decode for RequestsBlocked {
    open spec fn parse(b: Seq<u8>, pos: int) -> Result<(RequestsBlocked, int), Fault> {
        let maximum_request_id = parse_int(b, pos);
        let fault =
            failure(maximum_request_id);
        match fault {
            Some(f) => Err(f),
            None => Ok(
                (
                    RequestsBlocked {
                        maximum_request_id: value_of(maximum_request_id),
                    },
                    end_of(maximum_request_id),
                ),
            ),
        }
    }

    fn read(src: &[u8], pos: usize) -> (r: Result<(Self, usize), Error>) {
        let (maximum_request_id, at) = read_int(src, pos, "maximum request id")?;
        Ok((RequestsBlocked { maximum_request_id }, at))
    }
}

impl RoundTrip for RequestsBlocked {
    open spec fn canonical(m: RequestsBlocked) -> bool {
        &&& m.maximum_request_id < VARINT_LIMIT
    }

    proof fn lemma_round_trip(m: RequestsBlocked, b: Seq<u8>, pos: int) {
        lemma_int_round_trip(m.maximum_request_id, b, pos);
    }

    proof fn lemma_parse_canonical(b: Seq<u8>, pos: int) {
        lemma_int_parsed(b, pos);
    }
}

} // verus!
