//! PUBLISH_ERROR and its payload.

use vstd::prelude::*;
use crate::codec::{Encode, Decode, RoundTrip};
use crate::codec::field::{
    InOrder, value_of, end_of, failure, range_refusal, lemma_int_parsed, parse_int, read_int,
    check_int, write_int, lemma_append, lemma_holds_at_concat, lemma_int_round_trip,
};
use crate::codec::varint::{VARINT_LIMIT, varint_wire};
use crate::error::{Error, Fault};

verus! {

/// PUBLISH_ERROR: refuses a track that the peer offered.
#[derive(Debug, PartialEq, Eq, Clone)]
pub struct PublishError {
    pub request_id: u64,
    pub error_code: u64,
    pub error_reason: String,
}

/// The model of a [`PublishError`].
pub struct PublishErrorView {
    pub request_id: u64,
    pub error_code: u64,
    pub error_reason: Seq<char>,
}

impl View for PublishError {
    type V = PublishErrorView;

    open spec fn view(&self) -> PublishErrorView {
        PublishErrorView {
            request_id: self.request_id,
            error_code: self.error_code,
            error_reason: self.error_reason@,
        }
    }
}

impl Encode for PublishError {
    open spec fn wire(m: PublishErrorView) -> Seq<u8> {
        varint_wire(m.request_id)
            + varint_wire(m.error_code)
            + String::wire(m.error_reason)
    }

    open spec fn refusal(m: PublishErrorView) -> Option<Fault> {
        range_refusal(m.request_id as int)
            .otherwise(range_refusal(m.error_code as int))
            .otherwise(String::refusal(m.error_reason))
    }

    fn check(&self) -> (r: Result<(), Error>) {
        check_int(self.request_id)?;
        check_int(self.error_code)?;
        self.error_reason.check()
    }

    fn write(&self, out: &mut Vec<u8>) {
        let ghost base = out@;
        let ghost m = self@;
        let ghost w0 = varint_wire(m.request_id);
        let ghost w1 = w0 + varint_wire(m.error_code);
        write_int(out, self.request_id);
        write_int(out, self.error_code);
        proof {
            lemma_append(base, w0, varint_wire(m.error_code));
        }
        self.error_reason.write(out);
        proof {
            lemma_append(base, w1, String::wire(m.error_reason));
        }
    }
}

impl Decode for PublishError {
    open spec fn parse(b: Seq<u8>, pos: int) -> Result<(PublishErrorView, int), Fault> {
        let request_id = parse_int(b, pos);
        let error_code = parse_int(b, end_of(request_id));
        let error_reason = String::parse(b, end_of(error_code));
        let fault =
            failure(request_id)
                .otherwise(failure(error_code))
                .otherwise(failure(error_reason));
        match fault {
            Some(f) => Err(f),
            None => Ok(
                (
                    PublishErrorView {
                        request_id: value_of(request_id),
                        error_code: value_of(error_code),
                        error_reason: value_of(error_reason),
                    },
                    end_of(error_reason),
                ),
            ),
        }
    }

    fn read(src: &[u8], pos: usize) -> (r: Result<(Self, usize), Error>) {
        let (request_id, at) = read_int(src, pos, "request id")?;
        let (error_code, at) = read_int(src, at, "error code")?;
        let (error_reason, at) = String::read(src, at)?;
        Ok((PublishError { request_id, error_code, error_reason }, at))
    }
}

impl RoundTrip for PublishError {
    open spec fn canonical(m: PublishErrorView) -> bool {
        &&& m.request_id < VARINT_LIMIT
        &&& m.error_code < VARINT_LIMIT
        &&& String::canonical(m.error_reason)
    }

    proof fn lemma_round_trip(m: PublishErrorView, b: Seq<u8>, pos: int) {
        let f0 = varint_wire(m.request_id);
        let f1 = varint_wire(m.error_code);
        let f2 = String::wire(m.error_reason);
        let w1 = f0 + f1;
        lemma_holds_at_concat(b, pos, w1, f2);
        lemma_holds_at_concat(b, pos, f0, f1);
        lemma_int_round_trip(m.request_id, b, pos);
        lemma_int_round_trip(m.error_code, b, pos + f0.len());
        String::lemma_round_trip(m.error_reason, b, pos + w1.len());
    }

    proof fn lemma_parse_canonical(b: Seq<u8>, pos: int) {
        let request_id = parse_int(b, pos);
        let error_code = parse_int(b, end_of(request_id));
        lemma_int_parsed(b, pos);
        lemma_int_parsed(b, end_of(request_id));
        String::lemma_parse_canonical(b, end_of(error_code));
    }
}

} // verus!
