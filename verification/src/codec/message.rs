//! The framed codec of control messages: a type code, then the payload
//! behind its length.

use vstd::prelude::*;
use vstd::slice::slice_subrange;
use bytes::BytesMut;
use crate::buffer::{contents, fits, append, as_slice};
use crate::codec::{Encode, RoundTrip};
use crate::codec::field::{InOrder, range_refusal, check_int, write_int, lemma_holds_at_concat};
use crate::codec::length::{
    delimited_wire, parse_delimited, parse_whole, read_delimited, read_whole, write_delimited,
    lemma_whole_parsed, lemma_whole_round_trip,
};
use crate::codec::varint::{
    VARINT_LIMIT, varint_wire, parse_varint, read_varint, holds_at, lemma_varint_round_trip,
};
use crate::error::{Error, Fault};
use crate::message::{
    ControlMessage, ControlMessageType, ControlMessageView, Announce, AnnounceCancel, AnnounceError,
    AnnounceOk, ClientSetup, Fetch, FetchCancel, FetchError, FetchOk, Goaway, MaxRequestId, Publish,
    PublishError, PublishOk, RequestsBlocked, ServerSetup, Subscribe, SubscribeAnnounces,
    SubscribeAnnouncesError, SubscribeAnnouncesOk, SubscribeDone, SubscribeError, SubscribeOk,
    SubscribeUpdate, TrackStatus, TrackStatusRequest, Unannounce, Unsubscribe, UnsubscribeAnnounces,
};

verus! {

/// The bytes of the payload of a message.
#[verifier::opaque]
pub open spec fn payload_wire(m: ControlMessageView) -> Seq<u8> {
    match m {
        ControlMessageView::ClientSetup(p) => ClientSetup::wire(p),
        ControlMessageView::ServerSetup(p) => ServerSetup::wire(p),
        ControlMessageView::Goaway(p) => Goaway::wire(p),
        ControlMessageView::MaxRequestId(p) => MaxRequestId::wire(p),
        ControlMessageView::RequestsBlocked(p) => RequestsBlocked::wire(p),
        ControlMessageView::Subscribe(p) => Subscribe::wire(p),
        ControlMessageView::SubscribeOk(p) => SubscribeOk::wire(p),
        ControlMessageView::SubscribeError(p) => SubscribeError::wire(p),
        ControlMessageView::SubscribeUpdate(p) => SubscribeUpdate::wire(p),
        ControlMessageView::Unsubscribe(p) => Unsubscribe::wire(p),
        ControlMessageView::SubscribeDone(p) => SubscribeDone::wire(p),
        ControlMessageView::Publish(p) => Publish::wire(p),
        ControlMessageView::PublishOk(p) => PublishOk::wire(p),
        ControlMessageView::PublishError(p) => PublishError::wire(p),
        ControlMessageView::Fetch(p) => Fetch::wire(p),
        ControlMessageView::FetchOk(p) => FetchOk::wire(p),
        ControlMessageView::FetchError(p) => FetchError::wire(p),
        ControlMessageView::FetchCancel(p) => FetchCancel::wire(p),
        ControlMessageView::TrackStatusRequest(p) => TrackStatusRequest::wire(p),
        ControlMessageView::TrackStatus(p) => TrackStatus::wire(p),
        ControlMessageView::Announce(p) => Announce::wire(p),
        ControlMessageView::AnnounceOk(p) => AnnounceOk::wire(p),
        ControlMessageView::AnnounceError(p) => AnnounceError::wire(p),
        ControlMessageView::Unannounce(p) => Unannounce::wire(p),
        ControlMessageView::AnnounceCancel(p) => AnnounceCancel::wire(p),
        ControlMessageView::SubscribeAnnounces(p) => SubscribeAnnounces::wire(p),
        ControlMessageView::SubscribeAnnouncesOk(p) => SubscribeAnnouncesOk::wire(p),
        ControlMessageView::SubscribeAnnouncesError(p) => SubscribeAnnouncesError::wire(p),
        ControlMessageView::UnsubscribeAnnounces(p) => UnsubscribeAnnounces::wire(p),
    }
}

/// Why the payload of a message cannot be written, if it cannot.
#[verifier::opaque]
pub open spec fn payload_refusal(m: ControlMessageView) -> Option<Fault> {
    match m {
        ControlMessageView::ClientSetup(p) => ClientSetup::refusal(p),
        ControlMessageView::ServerSetup(p) => ServerSetup::refusal(p),
        ControlMessageView::Goaway(p) => Goaway::refusal(p),
        ControlMessageView::MaxRequestId(p) => MaxRequestId::refusal(p),
        ControlMessageView::RequestsBlocked(p) => RequestsBlocked::refusal(p),
        ControlMessageView::Subscribe(p) => Subscribe::refusal(p),
        ControlMessageView::SubscribeOk(p) => SubscribeOk::refusal(p),
        ControlMessageView::SubscribeError(p) => SubscribeError::refusal(p),
        ControlMessageView::SubscribeUpdate(p) => SubscribeUpdate::refusal(p),
        ControlMessageView::Unsubscribe(p) => Unsubscribe::refusal(p),
        ControlMessageView::SubscribeDone(p) => SubscribeDone::refusal(p),
        ControlMessageView::Publish(p) => Publish::refusal(p),
        ControlMessageView::PublishOk(p) => PublishOk::refusal(p),
        ControlMessageView::PublishError(p) => PublishError::refusal(p),
        ControlMessageView::Fetch(p) => Fetch::refusal(p),
        ControlMessageView::FetchOk(p) => FetchOk::refusal(p),
        ControlMessageView::FetchError(p) => FetchError::refusal(p),
        ControlMessageView::FetchCancel(p) => FetchCancel::refusal(p),
        ControlMessageView::TrackStatusRequest(p) => TrackStatusRequest::refusal(p),
        ControlMessageView::TrackStatus(p) => TrackStatus::refusal(p),
        ControlMessageView::Announce(p) => Announce::refusal(p),
        ControlMessageView::AnnounceOk(p) => AnnounceOk::refusal(p),
        ControlMessageView::AnnounceError(p) => AnnounceError::refusal(p),
        ControlMessageView::Unannounce(p) => Unannounce::refusal(p),
        ControlMessageView::AnnounceCancel(p) => AnnounceCancel::refusal(p),
        ControlMessageView::SubscribeAnnounces(p) => SubscribeAnnounces::refusal(p),
        ControlMessageView::SubscribeAnnouncesOk(p) => SubscribeAnnouncesOk::refusal(p),
        ControlMessageView::SubscribeAnnouncesError(p) => SubscribeAnnouncesError::refusal(p),
        ControlMessageView::UnsubscribeAnnounces(p) => UnsubscribeAnnounces::refusal(p),
    }
}

/// Whether the payload of a message is canonical.
#[verifier::opaque]
pub open spec fn payload_canonical(m: ControlMessageView) -> bool {
    match m {
        ControlMessageView::ClientSetup(p) => ClientSetup::canonical(p),
        ControlMessageView::ServerSetup(p) => ServerSetup::canonical(p),
        ControlMessageView::Goaway(p) => Goaway::canonical(p),
        ControlMessageView::MaxRequestId(p) => MaxRequestId::canonical(p),
        ControlMessageView::RequestsBlocked(p) => RequestsBlocked::canonical(p),
        ControlMessageView::Subscribe(p) => Subscribe::canonical(p),
        ControlMessageView::SubscribeOk(p) => SubscribeOk::canonical(p),
        ControlMessageView::SubscribeError(p) => SubscribeError::canonical(p),
        ControlMessageView::SubscribeUpdate(p) => SubscribeUpdate::canonical(p),
        ControlMessageView::Unsubscribe(p) => Unsubscribe::canonical(p),
        ControlMessageView::SubscribeDone(p) => SubscribeDone::canonical(p),
        ControlMessageView::Publish(p) => Publish::canonical(p),
        ControlMessageView::PublishOk(p) => PublishOk::canonical(p),
        ControlMessageView::PublishError(p) => PublishError::canonical(p),
        ControlMessageView::Fetch(p) => Fetch::canonical(p),
        ControlMessageView::FetchOk(p) => FetchOk::canonical(p),
        ControlMessageView::FetchError(p) => FetchError::canonical(p),
        ControlMessageView::FetchCancel(p) => FetchCancel::canonical(p),
        ControlMessageView::TrackStatusRequest(p) => TrackStatusRequest::canonical(p),
        ControlMessageView::TrackStatus(p) => TrackStatus::canonical(p),
        ControlMessageView::Announce(p) => Announce::canonical(p),
        ControlMessageView::AnnounceOk(p) => AnnounceOk::canonical(p),
        ControlMessageView::AnnounceError(p) => AnnounceError::canonical(p),
        ControlMessageView::Unannounce(p) => Unannounce::canonical(p),
        ControlMessageView::AnnounceCancel(p) => AnnounceCancel::canonical(p),
        ControlMessageView::SubscribeAnnounces(p) => SubscribeAnnounces::canonical(p),
        ControlMessageView::SubscribeAnnouncesOk(p) => SubscribeAnnouncesOk::canonical(p),
        ControlMessageView::SubscribeAnnouncesError(p) => SubscribeAnnouncesError::canonical(p),
        ControlMessageView::UnsubscribeAnnounces(p) => UnsubscribeAnnounces::canonical(p),
    }
}

/// A frame: the type code of the message, the length of its payload, the
/// payload.
pub open spec fn frame_wire(m: ControlMessageView) -> Seq<u8> {
    varint_wire(m.kind().spec_code()) + delimited_wire(payload_wire(m))
}

/// Why a message cannot be framed: its payload is refused, or is too long
/// for its length to be written.
pub open spec fn frame_refusal(m: ControlMessageView) -> Option<Fault> {
    payload_refusal(m).otherwise(range_refusal(payload_wire(m).len() as int))
}

/// Reads the payload of a message of the given kind. The payload must hold
/// the message and nothing else.
#[verifier::opaque]
pub open spec fn parse_payload(kind: ControlMessageType, payload: Seq<u8>) -> Result<
    ControlMessageView,
    Fault,
> {
    match kind {
        ControlMessageType::ClientSetup => match parse_whole::<ClientSetup>(payload) {
            Ok(p) => Ok(ControlMessageView::ClientSetup(p)),
            Err(f) => Err(f),
        },
        ControlMessageType::ServerSetup => match parse_whole::<ServerSetup>(payload) {
            Ok(p) => Ok(ControlMessageView::ServerSetup(p)),
            Err(f) => Err(f),
        },
        ControlMessageType::Goaway => match parse_whole::<Goaway>(payload) {
            Ok(p) => Ok(ControlMessageView::Goaway(p)),
            Err(f) => Err(f),
        },
        ControlMessageType::MaxRequestId => match parse_whole::<MaxRequestId>(payload) {
            Ok(p) => Ok(ControlMessageView::MaxRequestId(p)),
            Err(f) => Err(f),
        },
        ControlMessageType::RequestsBlocked => match parse_whole::<RequestsBlocked>(payload) {
            Ok(p) => Ok(ControlMessageView::RequestsBlocked(p)),
            Err(f) => Err(f),
        },
        ControlMessageType::Subscribe => match parse_whole::<Subscribe>(payload) {
            Ok(p) => Ok(ControlMessageView::Subscribe(p)),
            Err(f) => Err(f),
        },
        ControlMessageType::SubscribeOk => match parse_whole::<SubscribeOk>(payload) {
            Ok(p) => Ok(ControlMessageView::SubscribeOk(p)),
            Err(f) => Err(f),
        },
        ControlMessageType::SubscribeError => match parse_whole::<SubscribeError>(payload) {
            Ok(p) => Ok(ControlMessageView::SubscribeError(p)),
            Err(f) => Err(f),
        },
        ControlMessageType::SubscribeUpdate => match parse_whole::<SubscribeUpdate>(payload) {
            Ok(p) => Ok(ControlMessageView::SubscribeUpdate(p)),
            Err(f) => Err(f),
        },
        ControlMessageType::Unsubscribe => match parse_whole::<Unsubscribe>(payload) {
            Ok(p) => Ok(ControlMessageView::Unsubscribe(p)),
            Err(f) => Err(f),
        },
        ControlMessageType::SubscribeDone => match parse_whole::<SubscribeDone>(payload) {
            Ok(p) => Ok(ControlMessageView::SubscribeDone(p)),
            Err(f) => Err(f),
        },
        ControlMessageType::Publish => match parse_whole::<Publish>(payload) {
            Ok(p) => Ok(ControlMessageView::Publish(p)),
            Err(f) => Err(f),
        },
        ControlMessageType::PublishOk => match parse_whole::<PublishOk>(payload) {
            Ok(p) => Ok(ControlMessageView::PublishOk(p)),
            Err(f) => Err(f),
        },
        ControlMessageType::PublishError => match parse_whole::<PublishError>(payload) {
            Ok(p) => Ok(ControlMessageView::PublishError(p)),
            Err(f) => Err(f),
        },
        ControlMessageType::Fetch => match parse_whole::<Fetch>(payload) {
            Ok(p) => Ok(ControlMessageView::Fetch(p)),
            Err(f) => Err(f),
        },
        ControlMessageType::FetchOk => match parse_whole::<FetchOk>(payload) {
            Ok(p) => Ok(ControlMessageView::FetchOk(p)),
            Err(f) => Err(f),
        },
        ControlMessageType::FetchError => match parse_whole::<FetchError>(payload) {
            Ok(p) => Ok(ControlMessageView::FetchError(p)),
            Err(f) => Err(f),
        },
        ControlMessageType::FetchCancel => match parse_whole::<FetchCancel>(payload) {
            Ok(p) => Ok(ControlMessageView::FetchCancel(p)),
            Err(f) => Err(f),
        },
        ControlMessageType::TrackStatusRequest => match parse_whole::<TrackStatusRequest>(payload) {
            Ok(p) => Ok(ControlMessageView::TrackStatusRequest(p)),
            Err(f) => Err(f),
        },
        ControlMessageType::TrackStatus => match parse_whole::<TrackStatus>(payload) {
            Ok(p) => Ok(ControlMessageView::TrackStatus(p)),
            Err(f) => Err(f),
        },
        ControlMessageType::Announce => match parse_whole::<Announce>(payload) {
            Ok(p) => Ok(ControlMessageView::Announce(p)),
            Err(f) => Err(f),
        },
        ControlMessageType::AnnounceOk => match parse_whole::<AnnounceOk>(payload) {
            Ok(p) => Ok(ControlMessageView::AnnounceOk(p)),
            Err(f) => Err(f),
        },
        ControlMessageType::AnnounceError => match parse_whole::<AnnounceError>(payload) {
            Ok(p) => Ok(ControlMessageView::AnnounceError(p)),
            Err(f) => Err(f),
        },
        ControlMessageType::Unannounce => match parse_whole::<Unannounce>(payload) {
            Ok(p) => Ok(ControlMessageView::Unannounce(p)),
            Err(f) => Err(f),
        },
        ControlMessageType::AnnounceCancel => match parse_whole::<AnnounceCancel>(payload) {
            Ok(p) => Ok(ControlMessageView::AnnounceCancel(p)),
            Err(f) => Err(f),
        },
        ControlMessageType::SubscribeAnnounces => match parse_whole::<SubscribeAnnounces>(payload) {
            Ok(p) => Ok(ControlMessageView::SubscribeAnnounces(p)),
            Err(f) => Err(f),
        },
        ControlMessageType::SubscribeAnnouncesOk => match parse_whole::<SubscribeAnnouncesOk>(
            payload,
        ) {
            Ok(p) => Ok(ControlMessageView::SubscribeAnnouncesOk(p)),
            Err(f) => Err(f),
        },
        ControlMessageType::SubscribeAnnouncesError => match parse_whole::<SubscribeAnnouncesError>(
            payload,
        ) {
            Ok(p) => Ok(ControlMessageView::SubscribeAnnouncesError(p)),
            Err(f) => Err(f),
        },
        ControlMessageType::UnsubscribeAnnounces => match parse_whole::<UnsubscribeAnnounces>(
            payload,
        ) {
            Ok(p) => Ok(ControlMessageView::UnsubscribeAnnounces(p)),
            Err(f) => Err(f),
        },
    }
}

/// Reads one frame from the front of `b`: the message and the position after
/// the frame; `None` where `b` ends before the frame does; or the reason why
/// the frame holds no message. The type code is looked at only once the
/// whole frame is there.
pub open spec fn parse_frame(b: Seq<u8>) -> Result<Option<(ControlMessageView, int)>, Fault> {
    match parse_varint(b, 0) {
        None => Ok(None),
        Some((code, at)) => match parse_delimited(b, at) {
            None => Ok(None),
            Some((start, end)) => match ControlMessageType::of_code(code) {
                None => Err(Fault::UnknownMessageType),
                Some(kind) => match parse_payload(kind, b.subrange(start, end)) {
                    Err(f) => Err(f),
                    Ok(m) => Ok(Some((m, end))),
                },
            },
        },
    }
}

/// Where the frame at the front of `b` ends, once it is all there.
pub open spec fn frame_end(b: Seq<u8>) -> int {
    match parse_varint(b, 0) {
        None => 0,
        Some((_, at)) => match parse_delimited(b, at) {
            None => 0,
            Some((_, end)) => end,
        },
    }
}

/// Whether a message is one that reading a frame can give.
pub open spec fn frame_canonical(m: ControlMessageView) -> bool {
    payload_canonical(m) && payload_wire(m).len() < VARINT_LIMIT
}

/// The payload of a canonical message is not refused and reads as the
/// message.
pub proof fn lemma_payload_round_trip(m: ControlMessageView)
    requires
        payload_canonical(m),
    ensures
        payload_refusal(m) is None,
        parse_payload(m.kind(), payload_wire(m)) == Ok::<ControlMessageView, Fault>(m),
{
    reveal(payload_wire);
    reveal(payload_refusal);
    reveal(payload_canonical);
    reveal(parse_payload);
    match m {
        ControlMessageView::ClientSetup(p) => lemma_whole_round_trip::<ClientSetup>(p),
        ControlMessageView::ServerSetup(p) => lemma_whole_round_trip::<ServerSetup>(p),
        ControlMessageView::Goaway(p) => lemma_whole_round_trip::<Goaway>(p),
        ControlMessageView::MaxRequestId(p) => lemma_whole_round_trip::<MaxRequestId>(p),
        ControlMessageView::RequestsBlocked(p) => lemma_whole_round_trip::<RequestsBlocked>(p),
        ControlMessageView::Subscribe(p) => lemma_whole_round_trip::<Subscribe>(p),
        ControlMessageView::SubscribeOk(p) => lemma_whole_round_trip::<SubscribeOk>(p),
        ControlMessageView::SubscribeError(p) => lemma_whole_round_trip::<SubscribeError>(p),
        ControlMessageView::SubscribeUpdate(p) => lemma_whole_round_trip::<SubscribeUpdate>(p),
        ControlMessageView::Unsubscribe(p) => lemma_whole_round_trip::<Unsubscribe>(p),
        ControlMessageView::SubscribeDone(p) => lemma_whole_round_trip::<SubscribeDone>(p),
        ControlMessageView::Publish(p) => lemma_whole_round_trip::<Publish>(p),
        ControlMessageView::PublishOk(p) => lemma_whole_round_trip::<PublishOk>(p),
        ControlMessageView::PublishError(p) => lemma_whole_round_trip::<PublishError>(p),
        ControlMessageView::Fetch(p) => lemma_whole_round_trip::<Fetch>(p),
        ControlMessageView::FetchOk(p) => lemma_whole_round_trip::<FetchOk>(p),
        ControlMessageView::FetchError(p) => lemma_whole_round_trip::<FetchError>(p),
        ControlMessageView::FetchCancel(p) => lemma_whole_round_trip::<FetchCancel>(p),
        ControlMessageView::TrackStatusRequest(p) => lemma_whole_round_trip::<TrackStatusRequest>(
            p,
        ),
        ControlMessageView::TrackStatus(p) => lemma_whole_round_trip::<TrackStatus>(p),
        ControlMessageView::Announce(p) => lemma_whole_round_trip::<Announce>(p),
        ControlMessageView::AnnounceOk(p) => lemma_whole_round_trip::<AnnounceOk>(p),
        ControlMessageView::AnnounceError(p) => lemma_whole_round_trip::<AnnounceError>(p),
        ControlMessageView::Unannounce(p) => lemma_whole_round_trip::<Unannounce>(p),
        ControlMessageView::AnnounceCancel(p) => lemma_whole_round_trip::<AnnounceCancel>(p),
        ControlMessageView::SubscribeAnnounces(p) => lemma_whole_round_trip::<SubscribeAnnounces>(
            p,
        ),
        ControlMessageView::SubscribeAnnouncesOk(p) => lemma_whole_round_trip::<SubscribeAnnouncesOk>(
            p,
        ),
        ControlMessageView::SubscribeAnnouncesError(p) => lemma_whole_round_trip::<SubscribeAnnouncesError>(
            p,
        ),
        ControlMessageView::UnsubscribeAnnounces(p) => lemma_whole_round_trip::<UnsubscribeAnnounces>(
            p,
        ),
    }
}

/// A payload that reads as a message reads as a canonical one, of the kind
/// that was asked for.
pub proof fn lemma_payload_parsed(kind: ControlMessageType, payload: Seq<u8>)
    requires
        parse_payload(kind, payload) is Ok,
    ensures
        payload_canonical(parse_payload(kind, payload)->Ok_0),
        parse_payload(kind, payload)->Ok_0.kind() == kind,
{
    reveal(payload_canonical);
    reveal(parse_payload);
    match kind {
        ControlMessageType::ClientSetup => lemma_whole_parsed::<ClientSetup>(payload),
        ControlMessageType::ServerSetup => lemma_whole_parsed::<ServerSetup>(payload),
        ControlMessageType::Goaway => lemma_whole_parsed::<Goaway>(payload),
        ControlMessageType::MaxRequestId => lemma_whole_parsed::<MaxRequestId>(payload),
        ControlMessageType::RequestsBlocked => lemma_whole_parsed::<RequestsBlocked>(payload),
        ControlMessageType::Subscribe => lemma_whole_parsed::<Subscribe>(payload),
        ControlMessageType::SubscribeOk => lemma_whole_parsed::<SubscribeOk>(payload),
        ControlMessageType::SubscribeError => lemma_whole_parsed::<SubscribeError>(payload),
        ControlMessageType::SubscribeUpdate => lemma_whole_parsed::<SubscribeUpdate>(payload),
        ControlMessageType::Unsubscribe => lemma_whole_parsed::<Unsubscribe>(payload),
        ControlMessageType::SubscribeDone => lemma_whole_parsed::<SubscribeDone>(payload),
        ControlMessageType::Publish => lemma_whole_parsed::<Publish>(payload),
        ControlMessageType::PublishOk => lemma_whole_parsed::<PublishOk>(payload),
        ControlMessageType::PublishError => lemma_whole_parsed::<PublishError>(payload),
        ControlMessageType::Fetch => lemma_whole_parsed::<Fetch>(payload),
        ControlMessageType::FetchOk => lemma_whole_parsed::<FetchOk>(payload),
        ControlMessageType::FetchError => lemma_whole_parsed::<FetchError>(payload),
        ControlMessageType::FetchCancel => lemma_whole_parsed::<FetchCancel>(payload),
        ControlMessageType::TrackStatusRequest => lemma_whole_parsed::<TrackStatusRequest>(payload),
        ControlMessageType::TrackStatus => lemma_whole_parsed::<TrackStatus>(payload),
        ControlMessageType::Announce => lemma_whole_parsed::<Announce>(payload),
        ControlMessageType::AnnounceOk => lemma_whole_parsed::<AnnounceOk>(payload),
        ControlMessageType::AnnounceError => lemma_whole_parsed::<AnnounceError>(payload),
        ControlMessageType::Unannounce => lemma_whole_parsed::<Unannounce>(payload),
        ControlMessageType::AnnounceCancel => lemma_whole_parsed::<AnnounceCancel>(payload),
        ControlMessageType::SubscribeAnnounces => lemma_whole_parsed::<SubscribeAnnounces>(payload),
        ControlMessageType::SubscribeAnnouncesOk => lemma_whole_parsed::<SubscribeAnnouncesOk>(
            payload,
        ),
        ControlMessageType::SubscribeAnnouncesError => lemma_whole_parsed::<SubscribeAnnouncesError>(
            payload,
        ),
        ControlMessageType::UnsubscribeAnnounces => lemma_whole_parsed::<UnsubscribeAnnounces>(
            payload,
        ),
    }
}

/// A frame that reads as a message reads as a canonical one, and ends
/// within the bytes.
pub proof fn lemma_frame_parsed(b: Seq<u8>)
    requires
        parse_frame(b) matches Ok(Some(_)),
    ensures
        ({
            let (m, end) = parse_frame(b)->Ok_0->Some_0;
            &&& payload_canonical(m)
            &&& payload_refusal(m) is None
            &&& 0 < end <= b.len()
        }),
{
    reveal(parse_varint);
    let at = parse_varint(b, 0)->Some_0.1;
    let (start, end) = parse_delimited(b, at)->Some_0;
    let kind = ControlMessageType::of_code(parse_varint(b, 0)->Some_0.0)->Some_0;
    lemma_payload_parsed(kind, b.subrange(start, end));
    lemma_payload_round_trip(parse_frame(b)->Ok_0->Some_0.0);
}

/// A canonical message can be framed, and whatever follows its frame, the
/// frame reads as the message and ends where its bytes end.
pub proof fn lemma_frame_round_trip(m: ControlMessageView, rest: Seq<u8>)
    requires
        frame_canonical(m),
    ensures
        frame_refusal(m) is None,
        parse_frame(frame_wire(m) + rest) == Ok::<Option<(ControlMessageView, int)>, Fault>(
            Some((m, frame_wire(m).len() as int)),
        ),
{
    let code = m.kind().spec_code();
    let payload = payload_wire(m);
    let head = varint_wire(code);
    let len = varint_wire(payload.len() as u64);
    let b = frame_wire(m) + rest;
    lemma_payload_round_trip(m);
    assert(holds_at(b, 0, frame_wire(m))) by {
        reveal(holds_at);
        assert(b.subrange(0, frame_wire(m).len() as int) =~= frame_wire(m));
    }
    lemma_holds_at_concat(b, 0, head, delimited_wire(payload));
    lemma_holds_at_concat(b, head.len() as int, len, payload);
    lemma_varint_round_trip(b, 0, code);
    lemma_varint_round_trip(b, head.len() as int, payload.len() as u64);
    let start = (head.len() + len.len()) as int;
    assert(b.subrange(start, start + payload.len()) == payload) by {
        reveal(holds_at);
    }
    assert(ControlMessageType::of_code(code) == Some(m.kind()));
}

/// Tests the payload of a message against its grammar.
fn check_payload(item: &ControlMessage) -> (r: Result<(), Error>)
    ensures
        match payload_refusal(item@) {
            None => r is Ok,
            Some(f) => r matches Err(e) && e.fault() == Some(f),
        },
{
    proof {
        reveal(payload_refusal);
    }
    match item {
        ControlMessage::ClientSetup(m) => m.check(),
        ControlMessage::ServerSetup(m) => m.check(),
        ControlMessage::Goaway(m) => m.check(),
        ControlMessage::MaxRequestId(m) => m.check(),
        ControlMessage::RequestsBlocked(m) => m.check(),
        ControlMessage::Subscribe(m) => m.check(),
        ControlMessage::SubscribeOk(m) => m.check(),
        ControlMessage::SubscribeError(m) => m.check(),
        ControlMessage::SubscribeUpdate(m) => m.check(),
        ControlMessage::Unsubscribe(m) => m.check(),
        ControlMessage::SubscribeDone(m) => m.check(),
        ControlMessage::Publish(m) => m.check(),
        ControlMessage::PublishOk(m) => m.check(),
        ControlMessage::PublishError(m) => m.check(),
        ControlMessage::Fetch(m) => m.check(),
        ControlMessage::FetchOk(m) => m.check(),
        ControlMessage::FetchError(m) => m.check(),
        ControlMessage::FetchCancel(m) => m.check(),
        ControlMessage::TrackStatusRequest(m) => m.check(),
        ControlMessage::TrackStatus(m) => m.check(),
        ControlMessage::Announce(m) => m.check(),
        ControlMessage::AnnounceOk(m) => m.check(),
        ControlMessage::AnnounceError(m) => m.check(),
        ControlMessage::Unannounce(m) => m.check(),
        ControlMessage::AnnounceCancel(m) => m.check(),
        ControlMessage::SubscribeAnnounces(m) => m.check(),
        ControlMessage::SubscribeAnnouncesOk(m) => m.check(),
        ControlMessage::SubscribeAnnouncesError(m) => m.check(),
        ControlMessage::UnsubscribeAnnounces(m) => m.check(),
    }
}

/// Appends the payload of a message that is not refused to `out`.
fn write_payload(item: &ControlMessage, out: &mut Vec<u8>)
    requires
        payload_refusal(item@) is None,
    ensures
        final(out)@ == old(out)@ + payload_wire(item@),
{
    proof {
        reveal(payload_wire);
        reveal(payload_refusal);
    }
    match item {
        ControlMessage::ClientSetup(m) => m.write(out),
        ControlMessage::ServerSetup(m) => m.write(out),
        ControlMessage::Goaway(m) => m.write(out),
        ControlMessage::MaxRequestId(m) => m.write(out),
        ControlMessage::RequestsBlocked(m) => m.write(out),
        ControlMessage::Subscribe(m) => m.write(out),
        ControlMessage::SubscribeOk(m) => m.write(out),
        ControlMessage::SubscribeError(m) => m.write(out),
        ControlMessage::SubscribeUpdate(m) => m.write(out),
        ControlMessage::Unsubscribe(m) => m.write(out),
        ControlMessage::SubscribeDone(m) => m.write(out),
        ControlMessage::Publish(m) => m.write(out),
        ControlMessage::PublishOk(m) => m.write(out),
        ControlMessage::PublishError(m) => m.write(out),
        ControlMessage::Fetch(m) => m.write(out),
        ControlMessage::FetchOk(m) => m.write(out),
        ControlMessage::FetchError(m) => m.write(out),
        ControlMessage::FetchCancel(m) => m.write(out),
        ControlMessage::TrackStatusRequest(m) => m.write(out),
        ControlMessage::TrackStatus(m) => m.write(out),
        ControlMessage::Announce(m) => m.write(out),
        ControlMessage::AnnounceOk(m) => m.write(out),
        ControlMessage::AnnounceError(m) => m.write(out),
        ControlMessage::Unannounce(m) => m.write(out),
        ControlMessage::AnnounceCancel(m) => m.write(out),
        ControlMessage::SubscribeAnnounces(m) => m.write(out),
        ControlMessage::SubscribeAnnouncesOk(m) => m.write(out),
        ControlMessage::SubscribeAnnouncesError(m) => m.write(out),
        ControlMessage::UnsubscribeAnnounces(m) => m.write(out),
    }
}

/// Reads `payload` as the payload of a message of the given kind.
fn decode_payload(kind: ControlMessageType, payload: &[u8]) -> (r: Result<ControlMessage, Error>)
    ensures
        match parse_payload(kind, payload@) {
            Ok(m) => r matches Ok(v) && v@ == m,
            Err(f) => r matches Err(e) && e.fault() == Some(f),
        },
{
    proof {
        reveal(parse_payload);
    }
    match kind {
        ControlMessageType::ClientSetup => Ok(
            ControlMessage::ClientSetup(read_whole::<ClientSetup>(payload)?),
        ),
        ControlMessageType::ServerSetup => Ok(
            ControlMessage::ServerSetup(read_whole::<ServerSetup>(payload)?),
        ),
        ControlMessageType::Goaway => Ok(ControlMessage::Goaway(read_whole::<Goaway>(payload)?)),
        ControlMessageType::MaxRequestId => Ok(
            ControlMessage::MaxRequestId(read_whole::<MaxRequestId>(payload)?),
        ),
        ControlMessageType::RequestsBlocked => Ok(
            ControlMessage::RequestsBlocked(read_whole::<RequestsBlocked>(payload)?),
        ),
        ControlMessageType::Subscribe => Ok(
            ControlMessage::Subscribe(read_whole::<Subscribe>(payload)?),
        ),
        ControlMessageType::SubscribeOk => Ok(
            ControlMessage::SubscribeOk(read_whole::<SubscribeOk>(payload)?),
        ),
        ControlMessageType::SubscribeError => Ok(
            ControlMessage::SubscribeError(read_whole::<SubscribeError>(payload)?),
        ),
        ControlMessageType::SubscribeUpdate => Ok(
            ControlMessage::SubscribeUpdate(read_whole::<SubscribeUpdate>(payload)?),
        ),
        ControlMessageType::Unsubscribe => Ok(
            ControlMessage::Unsubscribe(read_whole::<Unsubscribe>(payload)?),
        ),
        ControlMessageType::SubscribeDone => Ok(
            ControlMessage::SubscribeDone(read_whole::<SubscribeDone>(payload)?),
        ),
        ControlMessageType::Publish => Ok(ControlMessage::Publish(read_whole::<Publish>(payload)?)),
        ControlMessageType::PublishOk => Ok(
            ControlMessage::PublishOk(read_whole::<PublishOk>(payload)?),
        ),
        ControlMessageType::PublishError => Ok(
            ControlMessage::PublishError(read_whole::<PublishError>(payload)?),
        ),
        ControlMessageType::Fetch => Ok(ControlMessage::Fetch(read_whole::<Fetch>(payload)?)),
        ControlMessageType::FetchOk => Ok(ControlMessage::FetchOk(read_whole::<FetchOk>(payload)?)),
        ControlMessageType::FetchError => Ok(
            ControlMessage::FetchError(read_whole::<FetchError>(payload)?),
        ),
        ControlMessageType::FetchCancel => Ok(
            ControlMessage::FetchCancel(read_whole::<FetchCancel>(payload)?),
        ),
        ControlMessageType::TrackStatusRequest => Ok(
            ControlMessage::TrackStatusRequest(read_whole::<TrackStatusRequest>(payload)?),
        ),
        ControlMessageType::TrackStatus => Ok(
            ControlMessage::TrackStatus(read_whole::<TrackStatus>(payload)?),
        ),
        ControlMessageType::Announce => Ok(
            ControlMessage::Announce(read_whole::<Announce>(payload)?),
        ),
        ControlMessageType::AnnounceOk => Ok(
            ControlMessage::AnnounceOk(read_whole::<AnnounceOk>(payload)?),
        ),
        ControlMessageType::AnnounceError => Ok(
            ControlMessage::AnnounceError(read_whole::<AnnounceError>(payload)?),
        ),
        ControlMessageType::Unannounce => Ok(
            ControlMessage::Unannounce(read_whole::<Unannounce>(payload)?),
        ),
        ControlMessageType::AnnounceCancel => Ok(
            ControlMessage::AnnounceCancel(read_whole::<AnnounceCancel>(payload)?),
        ),
        ControlMessageType::SubscribeAnnounces => Ok(
            ControlMessage::SubscribeAnnounces(read_whole::<SubscribeAnnounces>(payload)?),
        ),
        ControlMessageType::SubscribeAnnouncesOk => Ok(
            ControlMessage::SubscribeAnnouncesOk(read_whole::<SubscribeAnnouncesOk>(payload)?),
        ),
        ControlMessageType::SubscribeAnnouncesError => Ok(
            ControlMessage::SubscribeAnnouncesError(
                read_whole::<SubscribeAnnouncesError>(payload)?,
            ),
        ),
        ControlMessageType::UnsubscribeAnnounces => Ok(
            ControlMessage::UnsubscribeAnnounces(read_whole::<UnsubscribeAnnounces>(payload)?),
        ),
    }
}

/// The codec of framed control messages.
pub struct ControlMessageCodec;

impl ControlMessageCodec {
    /// Appends the frame of `item` to `dst`. A message that is refused, or
    /// whose frame `dst` cannot take, leaves `dst` as it was.
    pub fn encode(&mut self, item: ControlMessage, dst: &mut BytesMut) -> (r: Result<(), Error>)
        ensures
            match frame_refusal(item@) {
                Some(f) => r matches Err(e) && e.fault() == Some(f) && contents(final(dst))
                    == contents(old(dst)),
                None => if fits(contents(old(dst)), frame_wire(item@)) {
                    r is Ok && contents(final(dst)) == contents(old(dst)) + frame_wire(item@)
                } else {
                    r matches Err(Error::Codec(_)) && contents(final(dst)) == contents(old(dst))
                },
            },
    {
        check_payload(&item)?;
        let mut payload: Vec<u8> = Vec::new();
        write_payload(&item, &mut payload);
        assert(payload@ =~= payload_wire(item@));
        check_int(payload.len() as u64)?;
        let code: u64 = item.message_type().code();
        let mut frame: Vec<u8> = Vec::new();
        write_int(&mut frame, code);
        write_delimited(&mut frame, payload.as_slice());
        assert(frame@ =~= frame_wire(item@));
        append(dst, frame.as_slice())
    }

    /// Takes one frame from the front of `src` and reads it as a message.
    /// Where `src` ends before the frame does, nothing is taken and the
    /// result is `None`. Once the frame is all there its bytes are taken,
    /// whether or not they hold a message.
    pub fn decode(&mut self, src: &mut BytesMut) -> (r: Result<Option<ControlMessage>, Error>)
        ensures
            match parse_frame(contents(old(src))) {
                Ok(None) => r matches Ok(None) && contents(final(src)) == contents(old(src)),
                Ok(Some((m, end))) => r matches Ok(Some(v)) && v@ == m && contents(final(src))
                    == contents(old(src)).skip(end),
                Err(f) => r matches Err(e) && e.fault() == Some(f) && contents(final(src))
                    == contents(old(src)).skip(frame_end(contents(old(src)))),
            },
    {
        let bytes = as_slice(src);
        let (code, at) = match read_varint(bytes, 0) {
            Some(found) => found,
            None => {
                return Ok(None);
            },
        };
        let (start, end) = match read_delimited(bytes, at) {
            Some(found) => found,
            None => {
                return Ok(None);
            },
        };
        let frame = src.split_to(end);
        let payload = slice_subrange(as_slice(&frame), start, end);
        assert(payload@ =~= contents(old(src)).subrange(start as int, end as int));
        let kind = ControlMessageType::try_from(code)?;
        let message = decode_payload(kind, payload)?;
        Ok(Some(message))
    }
}

} // verus!
