//! SUBSCRIBE_DONE and its payload.

use vstd::prelude::*;
use vstd::utf8::encode_utf8;
use crate::codec::{Encode, Decode, RoundTrip};
use crate::codec::field::{
    InOrder, value_of, end_of, failure, range_refusal, lemma_int_parsed, parse_int, read_int,
    check_int, write_int, lemma_append, lemma_holds_at_concat, lemma_int_round_trip,
};
use crate::codec::text::{
    text_refusal_within, parse_text_within, check_text_within, read_text_within,
    lemma_text_within_round_trip, lemma_text_within_parsed,
};
use crate::codec::varint::{VARINT_LIMIT, varint_wire};
use crate::error::{Error, Fault};

verus! {

/// The longest reason that SUBSCRIBE_DONE may carry, in bytes.
pub const MAX_REASON_LENGTH: u64 = 8192;


/// SUBSCRIBE_DONE: the publisher has finished a subscription.
#[derive(Debug, PartialEq, Eq, Clone)]
pub struct SubscribeDone {
    pub request_id: u64,
    pub status_code: u64,
    pub stream_count: u64,
    /// At most 8192 bytes of UTF-8.
    pub reason: String,
}

/// The model of a [`SubscribeDone`].
pub struct SubscribeDoneView {
    pub request_id: u64,
    pub status_code: u64,
    pub stream_count: u64,
    pub reason: Seq<char>,
}

impl View for SubscribeDone {
    type V = SubscribeDoneView;

    open spec fn view(&self) -> SubscribeDoneView {
        SubscribeDoneView {
            request_id: self.request_id,
            status_code: self.status_code,
            stream_count: self.stream_count,
            reason: self.reason@,
        }
    }
}

impl Encode for SubscribeDone {
    open spec fn wire(m: SubscribeDoneView) -> Seq<u8> {
        varint_wire(m.request_id)
            + varint_wire(m.status_code)
            + varint_wire(m.stream_count)
            + String::wire(m.reason)
    }

    open spec fn refusal(m: SubscribeDoneView) -> Option<Fault> {
        range_refusal(m.request_id as int)
            .otherwise(range_refusal(m.status_code as int))
            .otherwise(range_refusal(m.stream_count as int))
            .otherwise(text_refusal_within(m.reason, MAX_REASON_LENGTH))
    }

    fn check(&self) -> (r: Result<(), Error>) {
        check_int(self.request_id)?;
        check_int(self.status_code)?;
        check_int(self.stream_count)?;
        check_text_within(&self.reason, MAX_REASON_LENGTH, "reason too long")
    }

    fn write(&self, out: &mut Vec<u8>) {
        let ghost base = out@;
        let ghost m = self@;
        let ghost w0 = varint_wire(m.request_id);
        let ghost w1 = w0 + varint_wire(m.status_code);
        let ghost w2 = w1 + varint_wire(m.stream_count);
        write_int(out, self.request_id);
        write_int(out, self.status_code);
        proof {
            lemma_append(base, w0, varint_wire(m.status_code));
        }
        write_int(out, self.stream_count);
        proof {
            lemma_append(base, w1, varint_wire(m.stream_count));
        }
        self.reason.write(out);
        proof {
            lemma_append(base, w2, String::wire(m.reason));
        }
    }
}

impl Decode for SubscribeDone {
    open spec fn parse(b: Seq<u8>, pos: int) -> Result<(SubscribeDoneView, int), Fault> {
        let request_id = parse_int(b, pos);
        let status_code = parse_int(b, end_of(request_id));
        let stream_count = parse_int(b, end_of(status_code));
        let reason = parse_text_within(b, end_of(stream_count), MAX_REASON_LENGTH);
        let fault =
            failure(request_id)
                .otherwise(failure(status_code))
                .otherwise(failure(stream_count))
                .otherwise(failure(reason));
        match fault {
            Some(f) => Err(f),
            None => Ok(
                (
                    SubscribeDoneView {
                        request_id: value_of(request_id),
                        status_code: value_of(status_code),
                        stream_count: value_of(stream_count),
                        reason: value_of(reason),
                    },
                    end_of(reason),
                ),
            ),
        }
    }

    fn read(src: &[u8], pos: usize) -> (r: Result<(Self, usize), Error>) {
        let (request_id, at) = read_int(src, pos, "request id")?;
        let (status_code, at) = read_int(src, at, "status code")?;
        let (stream_count, at) = read_int(src, at, "stream count")?;
        let (reason, at) = read_text_within(src, at, MAX_REASON_LENGTH, "reason too long")?;
        Ok((SubscribeDone { request_id, status_code, stream_count, reason }, at))
    }
}

impl RoundTrip for SubscribeDone {
    open spec fn canonical(m: SubscribeDoneView) -> bool {
        &&& m.request_id < VARINT_LIMIT
        &&& m.status_code < VARINT_LIMIT
        &&& m.stream_count < VARINT_LIMIT
        &&& String::canonical(m.reason)
        &&& encode_utf8(m.reason).len() <= MAX_REASON_LENGTH
    }

    proof fn lemma_round_trip(m: SubscribeDoneView, b: Seq<u8>, pos: int) {
        let f0 = varint_wire(m.request_id);
        let f1 = varint_wire(m.status_code);
        let f2 = varint_wire(m.stream_count);
        let f3 = String::wire(m.reason);
        let w1 = f0 + f1;
        let w2 = w1 + f2;
        lemma_holds_at_concat(b, pos, w2, f3);
        lemma_holds_at_concat(b, pos, w1, f2);
        lemma_holds_at_concat(b, pos, f0, f1);
        lemma_int_round_trip(m.request_id, b, pos);
        lemma_int_round_trip(m.status_code, b, pos + f0.len());
        lemma_int_round_trip(m.stream_count, b, pos + w1.len());
        lemma_text_within_round_trip(m.reason, MAX_REASON_LENGTH, b, pos + w2.len());
    }

    proof fn lemma_parse_canonical(b: Seq<u8>, pos: int) {
        let request_id = parse_int(b, pos);
        let status_code = parse_int(b, end_of(request_id));
        let stream_count = parse_int(b, end_of(status_code));
        lemma_int_parsed(b, pos);
        lemma_int_parsed(b, end_of(request_id));
        lemma_int_parsed(b, end_of(status_code));
        lemma_text_within_parsed(b, end_of(stream_count), MAX_REASON_LENGTH);
    }
}

} // verus!
