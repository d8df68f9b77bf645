use bytes::BytesMut;
use moqt_transport::codec::{Decode, Encode};
use moqt_transport::error::{Error, IoErrorKind};
use moqt_transport::message::{
    Announce, AnnounceError, ClientSetup, Fetch, FetchCancel, FetchError, FetchOk, Goaway,
    Publish, PublishError, PublishOk, Subscribe, SubscribeAnnounces, SubscribeAnnouncesError,
    SubscribeAnnouncesOk, SubscribeDone, SubscribeOk, SubscribeUpdate, TrackStatus,
    UnsubscribeAnnounces,
};
use moqt_transport::model::{Location, Parameter};

fn encoded<T: Encode>(value: &T) -> Vec<u8> {
    let mut buf = BytesMut::new();
    value.encode(&mut buf).unwrap();
    buf.to_vec()
}

/// The message as it comes back from its own bytes, which must all be used.
fn round_trip<T: Encode + Decode>(value: &T) -> T {
    let mut buf = BytesMut::from(&encoded(value)[..]);
    let back = T::decode(&mut buf).unwrap();
    assert!(buf.is_empty());
    back
}

fn violates<T: Encode>(value: &T) {
    let mut buf = BytesMut::from(&[0xEEu8][..]);
    let err = value.encode(&mut buf).unwrap_err();
    assert!(matches!(err, Error::ProtocolViolation { .. }), "{:?}", err);
    assert_eq!(buf.as_ref(), &[0xEE]);
}

fn out_of_range<T: Encode>(value: &T) {
    let mut buf = BytesMut::from(&[0xEEu8][..]);
    assert_eq!(value.encode(&mut buf).unwrap_err(), Error::VarIntRange);
    assert_eq!(buf.as_ref(), &[0xEE]);
}

fn unread<T: Decode + std::fmt::Debug>(bytes: &[u8]) -> Error {
    let mut buf = BytesMut::from(bytes);
    let err = T::decode(&mut buf).unwrap_err();
    assert_eq!(buf.as_ref(), bytes);
    err
}

fn is_violation<T: Decode + std::fmt::Debug>(bytes: &[u8]) {
    let err = unread::<T>(bytes);
    assert!(matches!(err, Error::ProtocolViolation { .. }), "{:?}", err);
}

fn is_cut_short<T: Decode + std::fmt::Debug>(bytes: &[u8]) {
    match unread::<T>(bytes) {
        Error::Io(e) => assert_eq!(e.kind(), IoErrorKind::UnexpectedEof),
        other => panic!("unexpected error: {:?}", other),
    }
}

fn at(group: u64, object: u64) -> Location {
    Location { group, object }
}

fn subscribe(filter_type: u64, start: Option<Location>, end_group: Option<u64>) -> Subscribe {
    Subscribe {
        request_id: 1,
        track_namespace: 2,
        track_name: "v".to_string(),
        subscriber_priority: 3,
        group_order: 1,
        forward: 1,
        filter_type,
        start_location: start,
        end_group,
        parameters: Vec::new(),
    }
}

#[test]
fn subscribe_carries_what_its_filter_calls_for() {
    let head = [1, 2, 1, b'v', 3, 1, 1];
    let bytes = |rest: &[u8]| [&head[..], rest].concat();
    assert_eq!(encoded(&subscribe(1, None, None)), bytes(&[1, 0]));
    assert_eq!(encoded(&subscribe(2, None, None)), bytes(&[2, 0]));
    assert_eq!(
        encoded(&subscribe(3, Some(at(10, 5)), None)),
        bytes(&[3, 10, 5, 0])
    );
    assert_eq!(
        encoded(&subscribe(4, Some(at(10, 5)), Some(20))),
        bytes(&[4, 10, 5, 20, 0])
    );
    for msg in [
        subscribe(1, None, None),
        subscribe(3, Some(at(10, 5)), None),
        subscribe(4, Some(at(10, 5)), Some(20)),
    ] {
        assert_eq!(round_trip(&msg), msg);
    }
}

#[test]
fn subscribe_with_a_range_filter_needs_its_range() {
    violates(&subscribe(4, None, Some(20)));
    violates(&subscribe(4, Some(at(10, 5)), None));
    violates(&subscribe(3, None, None));
    violates(&subscribe(0, None, None));
    violates(&subscribe(5, Some(at(1, 1)), Some(2)));
}

#[test]
fn subscribe_leaves_out_what_its_filter_does_not_call_for() {
    let msg = subscribe(2, Some(at(10, 5)), Some(20));
    assert_eq!(encoded(&msg), encoded(&subscribe(2, None, None)));
    assert_eq!(round_trip(&msg), subscribe(2, None, None));
    let msg = subscribe(3, Some(at(10, 5)), Some(20));
    assert_eq!(round_trip(&msg), subscribe(3, Some(at(10, 5)), None));
}

#[test]
fn subscribe_flags_are_checked_both_ways() {
    let mut msg = subscribe(2, None, None);
    msg.group_order = 3;
    violates(&msg);
    msg.group_order = 0;
    assert_eq!(round_trip(&msg), msg);
    msg.forward = 2;
    violates(&msg);
    msg.forward = 0;
    msg.request_id = 1 << 62;
    out_of_range(&msg);

    is_violation::<Subscribe>(&[1, 2, 1, b'v', 3, 3, 1, 2, 0]);
    is_violation::<Subscribe>(&[1, 2, 1, b'v', 3, 1, 2, 2, 0]);
    is_violation::<Subscribe>(&[1, 2, 1, b'v', 3, 1, 1, 0, 0]);
    is_violation::<Subscribe>(&[1, 2, 1, b'v', 3, 1, 1, 5, 0]);
    is_cut_short::<Subscribe>(&[1, 2, 1, b'v', 3, 1, 1, 4, 10, 5]);
    is_cut_short::<Subscribe>(&[1, 2, 1, b'v', 3, 1, 1, 2]);
    is_cut_short::<Subscribe>(&[1, 2, 1, b'v', 3, 1, 1, 2, 1, 1, 2, b'a']);
}

#[test]
fn subscribe_ok_carries_a_location_where_content_exists() {
    let msg = |exists: bool, location: Option<Location>| SubscribeOk {
        request_id: 1,
        track_alias: 2,
        expires: 500,
        group_order: 1,
        content_exists: exists,
        largest_location: location,
        parameters: Vec::new(),
    };
    assert_eq!(
        encoded(&msg(true, Some(at(10, 7)))),
        vec![1, 2, 0x41, 0xf4, 1, 1, 10, 7, 0]
    );
    assert_eq!(encoded(&msg(false, None)), vec![1, 2, 0x41, 0xf4, 1, 0, 0]);
    violates(&msg(true, None));
    assert_eq!(round_trip(&msg(false, Some(at(1, 1)))), msg(false, None));
    let mut bad = msg(false, None);
    bad.group_order = 0;
    violates(&bad);
    bad.group_order = 3;
    violates(&bad);
    is_violation::<SubscribeOk>(&[1, 2, 0, 0, 0, 0]);
    is_violation::<SubscribeOk>(&[1, 2, 0, 1, 2, 0]);
    is_cut_short::<SubscribeOk>(&[1, 2, 0, 1, 1, 10]);
}

#[test]
fn subscribe_update_checks_forward() {
    let msg = SubscribeUpdate {
        request_id: 1,
        start_location: at(5, 2),
        end_group: 10,
        subscriber_priority: 3,
        forward: 1,
        parameters: Vec::new(),
    };
    assert_eq!(encoded(&msg), vec![1, 5, 2, 10, 3, 1, 0]);
    let mut bad = msg.clone();
    bad.forward = 2;
    violates(&bad);
    is_violation::<SubscribeUpdate>(&[1, 5, 2, 10, 3, 2, 0]);
}

#[test]
fn subscribe_done_reason_has_a_limit() {
    let msg = |len: usize| SubscribeDone {
        request_id: 1,
        status_code: 3,
        stream_count: 2,
        reason: "r".repeat(len),
    };
    assert_eq!(encoded(&msg(2)), vec![1, 3, 2, 2, b'r', b'r']);
    assert_eq!(round_trip(&msg(8192)), msg(8192));
    violates(&msg(8193));
    // A length of 8193, refused before the text is asked for.
    is_violation::<SubscribeDone>(&[1, 3, 2, 0x60, 0x01]);
    is_cut_short::<SubscribeDone>(&[1, 3, 2, 0x60, 0x00]);
}

#[test]
fn goaway_without_a_uri_is_an_empty_text() {
    let none = Goaway {
        new_session_uri: None,
    };
    let empty = Goaway {
        new_session_uri: Some(String::new()),
    };
    assert_eq!(encoded(&none), vec![0]);
    assert_eq!(encoded(&empty), vec![0]);
    assert_eq!(round_trip(&empty), none);
    let uri = Goaway {
        new_session_uri: Some("moq://x".to_string()),
    };
    assert_eq!(encoded(&uri), [&[7u8][..], &b"moq://x"[..]].concat());
}

#[test]
fn goaway_uri_has_a_limit() {
    let msg = |len: usize| Goaway {
        new_session_uri: Some("a".repeat(len)),
    };
    assert_eq!(Goaway::MAX_URI_LENGTH, 8192);
    assert_eq!(round_trip(&msg(8192)), msg(8192));
    violates(&msg(8193));
    is_violation::<Goaway>(&[0x60, 0x01]);
    is_cut_short::<Goaway>(&[0x60, 0x00, b'a']);
    is_cut_short::<Goaway>(&[]);
}

#[test]
fn publish_checks_every_flag_both_ways() {
    let msg = Publish {
        request_id: 1,
        track_namespace: 2,
        track_name: "v".to_string(),
        track_alias: 3,
        group_order: 1,
        content_exists: 1,
        largest: Some(at(10, 5)),
        forward: 1,
        parameters: Vec::new(),
    };
    assert_eq!(encoded(&msg), vec![1, 2, 1, b'v', 3, 1, 1, 10, 5, 1, 0]);
    let with = |change: fn(&mut Publish)| {
        let mut changed = msg.clone();
        change(&mut changed);
        changed
    };
    violates(&with(|m| m.group_order = 0));
    violates(&with(|m| m.group_order = 3));
    violates(&with(|m| m.content_exists = 2));
    violates(&with(|m| m.largest = None));
    violates(&with(|m| m.forward = 2));
    out_of_range(&with(|m| m.track_alias = 1 << 62));
    let quiet = with(|m| m.content_exists = 0);
    assert_eq!(encoded(&quiet), vec![1, 2, 1, b'v', 3, 1, 0, 1, 0]);
    assert_eq!(round_trip(&quiet), with(|m| {
        m.content_exists = 0;
        m.largest = None;
    }));
    is_violation::<Publish>(&[1, 2, 1, b'v', 3, 0, 0, 1, 0]);
    is_violation::<Publish>(&[1, 2, 1, b'v', 3, 1, 2, 1, 0]);
    is_violation::<Publish>(&[1, 2, 1, b'v', 3, 1, 0, 2, 0]);
    is_cut_short::<Publish>(&[1, 2, 1, b'v', 3, 1, 1, 10]);
}

#[test]
fn publish_ok_follows_its_filter() {
    let msg = |filter_type: u64, start: Option<Location>, end_group: Option<u64>| PublishOk {
        request_id: 1,
        forward: 1,
        subscriber_priority: 5,
        group_order: 2,
        filter_type,
        start,
        end_group,
        parameters: Vec::new(),
    };
    assert_eq!(
        encoded(&msg(4, Some(at(10, 2)), Some(20))),
        vec![1, 1, 5, 2, 4, 10, 2, 20, 0]
    );
    assert_eq!(encoded(&msg(1, None, None)), vec![1, 1, 5, 2, 1, 0]);
    violates(&msg(4, Some(at(10, 2)), None));
    violates(&msg(3, None, None));
    violates(&msg(9, None, None));
    let mut bad = msg(1, None, None);
    bad.forward = 2;
    violates(&bad);
    bad.forward = 0;
    bad.group_order = 0;
    violates(&bad);
    is_violation::<PublishOk>(&[1, 2, 5, 2, 1, 0]);
    is_violation::<PublishOk>(&[1, 1, 5, 0, 1, 0]);
    is_violation::<PublishOk>(&[1, 1, 5, 2, 0, 0]);
}

fn fetch(fetch_type: u64) -> Fetch {
    Fetch {
        request_id: 1,
        subscriber_priority: 2,
        group_order: 0,
        fetch_type,
        track_namespace: Some(3),
        track_name: Some("v".to_string()),
        start_location: Some(at(10, 5)),
        end_location: Some(at(20, 0)),
        joining_request_id: Some(42),
        joining_start: Some(7),
        parameters: Vec::new(),
    }
}

#[test]
fn fetch_carries_a_track_or_a_subscription() {
    assert_eq!(
        encoded(&fetch(1)),
        vec![1, 2, 0, 1, 3, 1, b'v', 10, 5, 20, 0, 0]
    );
    assert_eq!(encoded(&fetch(2)), vec![1, 2, 0, 2, 42, 7, 0]);
    assert_eq!(encoded(&fetch(3)), vec![1, 2, 0, 3, 42, 7, 0]);
    let standalone = round_trip(&fetch(1));
    assert_eq!(standalone.track_name.as_deref(), Some("v"));
    assert_eq!(standalone.end_location, Some(at(20, 0)));
    assert_eq!(standalone.joining_request_id, None);
    assert_eq!(standalone.joining_start, None);
    let joining = round_trip(&fetch(3));
    assert_eq!(joining.track_namespace, None);
    assert_eq!(joining.track_name, None);
    assert_eq!(joining.start_location, None);
    assert_eq!(joining.end_location, None);
    assert_eq!(joining.joining_request_id, Some(42));
    assert_eq!(joining.joining_start, Some(7));
}

#[test]
fn fetch_refusals() {
    violates(&fetch(0));
    violates(&fetch(4));
    let with = |fetch_type: u64, change: fn(&mut Fetch)| {
        let mut changed = fetch(fetch_type);
        change(&mut changed);
        changed
    };
    violates(&with(1, |m| m.track_namespace = None));
    violates(&with(1, |m| m.track_name = None));
    violates(&with(1, |m| m.start_location = None));
    violates(&with(1, |m| m.end_location = None));
    violates(&with(2, |m| m.joining_request_id = None));
    violates(&with(3, |m| m.joining_start = None));
    violates(&with(1, |m| m.group_order = 3));
    out_of_range(&with(2, |m| m.joining_start = Some(1 << 62)));
    is_violation::<Fetch>(&[1, 2, 3, 2, 42, 7, 0]);
    is_violation::<Fetch>(&[1, 2, 0, 0, 42, 7, 0]);
    is_violation::<Fetch>(&[1, 2, 0, 4, 42, 7, 0]);
    is_cut_short::<Fetch>(&[1, 2, 0, 1, 3, 1, b'v', 10, 5, 20]);
    is_cut_short::<Fetch>(&[1, 2, 0, 2, 42]);
}

#[test]
fn fetch_ok_flags() {
    let msg = FetchOk {
        request_id: 1,
        group_order: 2,
        end_of_track: false,
        end_location: at(10, 5),
        parameters: Vec::new(),
    };
    assert_eq!(encoded(&msg), vec![1, 2, 0, 10, 5, 0]);
    let mut done = msg.clone();
    done.end_of_track = true;
    assert_eq!(encoded(&done), vec![1, 2, 1, 10, 5, 0]);
    assert_eq!(round_trip(&done), done);
    let mut bad = msg.clone();
    bad.group_order = 0;
    violates(&bad);
    is_violation::<FetchOk>(&[1, 0, 0, 10, 5, 0]);
    is_violation::<FetchOk>(&[1, 2, 2, 10, 5, 0]);
}

fn status(status_code: u64, location: Location, parameters: Vec<Parameter>) -> TrackStatus {
    TrackStatus {
        request_id: 1,
        status_code,
        largest_location: location,
        parameters,
    }
}

#[test]
fn track_status_without_content_carries_no_location_and_no_parameters() {
    let parameter = Parameter {
        parameter_type: 2,
        value: vec![42],
    };
    assert_eq!(
        encoded(&status(0, at(10, 5), vec![parameter.clone()])),
        vec![1, 0, 10, 5, 1, 2, 42]
    );
    for code in [1, 2] {
        assert_eq!(
            encoded(&status(code, at(0, 0), Vec::new())),
            vec![1, code as u8, 0, 0, 0]
        );
        violates(&status(code, at(1, 0), Vec::new()));
        violates(&status(code, at(0, 1), Vec::new()));
        violates(&status(code, at(0, 0), vec![parameter.clone()]));
        is_violation::<TrackStatus>(&[1, code as u8, 1, 0, 0]);
        is_violation::<TrackStatus>(&[1, code as u8, 0, 1, 0]);
        is_violation::<TrackStatus>(&[1, code as u8, 0, 0, 1, 2, 42]);
    }
    for code in [0, 3, 4] {
        let msg = status(code, at(10, 5), vec![parameter.clone()]);
        assert_eq!(round_trip(&msg), msg);
    }
    violates(&status(5, at(0, 0), Vec::new()));
    is_violation::<TrackStatus>(&[1, 5, 0, 0, 0]);
}

#[test]
fn namespaces_have_one_to_thirty_two_parts() {
    let parts = |n: usize| (0..n).map(|i| format!("p{}", i)).collect::<Vec<String>>();
    let announce = |n: usize| Announce {
        request_id: 1,
        track_namespace: parts(n),
        parameters: Vec::new(),
    };
    let subscribe = |n: usize| SubscribeAnnounces {
        request_id: 1,
        track_namespace_prefix: parts(n),
        parameters: Vec::new(),
    };
    assert_eq!(
        encoded(&announce(2)),
        vec![1, 2, 2, b'p', b'0', 2, b'p', b'1', 0]
    );
    assert_eq!(encoded(&subscribe(1)), vec![1, 1, 2, b'p', b'0', 0]);
    assert_eq!(round_trip(&announce(32)), announce(32));
    assert_eq!(round_trip(&subscribe(32)), subscribe(32));
    violates(&announce(0));
    violates(&announce(33));
    violates(&subscribe(0));
    violates(&subscribe(33));
    is_violation::<Announce>(&[1, 0, 0]);
    is_violation::<SubscribeAnnounces>(&[1, 0, 0]);
    // Thirty-three parts are announced; none is looked at.
    is_violation::<Announce>(&[1, 33]);
    is_violation::<SubscribeAnnounces>(&[1, 33]);
    is_cut_short::<Announce>(&[1, 2, 2, b'p', b'0']);
}

#[test]
fn client_setup_lists_versions_and_parameters() {
    let msg = ClientSetup {
        supported_versions: vec![1, 0xff00000d],
        setup_parameters: vec![
            Parameter {
                parameter_type: 1,
                value: b"/".to_vec(),
            },
            Parameter {
                parameter_type: 2,
                value: vec![5],
            },
        ],
    };
    assert_eq!(
        encoded(&msg),
        vec![2, 1, 0xc0, 0, 0, 0, 0xff, 0, 0, 0x0d, 2, 1, 1, b'/', 2, 5]
    );
    let none = ClientSetup {
        supported_versions: Vec::new(),
        setup_parameters: Vec::new(),
    };
    assert_eq!(encoded(&none), vec![0, 0]);
    assert_eq!(round_trip(&none), none);
    // A version of 2^32.
    assert_eq!(
        unread::<ClientSetup>(&[1, 0xc0, 0, 0, 1, 0, 0, 0, 0, 0]),
        Error::VarIntRange
    );
    let bad = ClientSetup {
        supported_versions: vec![1],
        setup_parameters: vec![Parameter {
            parameter_type: 2,
            value: Vec::new(),
        }],
    };
    violates(&bad);
}

#[test]
fn refusals_and_plain_answers_have_the_shape_of_their_kind() {
    assert_eq!(
        encoded(&AnnounceError {
            request_id: 1,
            error_code: 300,
            error_reason: "no".to_string()
        }),
        vec![1, 0x41, 0x2c, 2, b'n', b'o']
    );
    let publish = PublishError {
        request_id: 1,
        error_code: 2,
        error_reason: "né".to_string(),
    };
    assert_eq!(encoded(&publish), vec![1, 2, 3, b'n', 0xc3, 0xa9]);
    assert_eq!(round_trip(&publish), publish);
    let fetch = FetchError {
        request_id: 9,
        error_code: 0,
        error_reason: String::new(),
    };
    assert_eq!(encoded(&fetch), vec![9, 0, 0]);
    assert_eq!(round_trip(&fetch), fetch);
    let announces = SubscribeAnnouncesError {
        request_id: 1 << 40,
        error_code: 1,
        error_reason: "x".to_string(),
    };
    assert_eq!(round_trip(&announces), announces);
    out_of_range(&SubscribeAnnouncesError {
        request_id: 1,
        error_code: 1 << 62,
        error_reason: String::new(),
    });
    assert_eq!(encoded(&FetchCancel { request_id: 64 }), vec![0x40, 0x40]);
    assert_eq!(
        round_trip(&SubscribeAnnouncesOk { request_id: 7 }),
        SubscribeAnnouncesOk { request_id: 7 }
    );
    out_of_range(&FetchCancel { request_id: 1 << 62 });
    is_cut_short::<FetchCancel>(&[]);
    is_cut_short::<AnnounceError>(&[1, 2]);
    is_cut_short::<PublishError>(&[1, 2, 3, b'a']);
    match unread::<FetchError>(&[1, 2, 1, 0xff]) {
        Error::Io(e) => assert_eq!(e.kind(), IoErrorKind::InvalidData),
        other => panic!("unexpected error: {:?}", other),
    }
    let prefix = UnsubscribeAnnounces {
        track_namespace: 2,
        track_name_prefix: "vid".to_string(),
    };
    assert_eq!(encoded(&prefix), vec![2, 3, b'v', b'i', b'd']);
}

#[test]
fn decoding_leaves_what_follows_the_message() {
    let mut buf = BytesMut::from(&[1u8, 1, 2, b'p', b'0', 0, 0xAA, 0xBB][..]);
    let msg = SubscribeAnnounces::decode(&mut buf).unwrap();
    assert_eq!(msg.track_namespace_prefix, vec!["p0".to_string()]);
    assert_eq!(buf.as_ref(), &[0xAA, 0xBB]);
}
