use bytes::{BufMut, BytesMut};
use moqt_transport::codec::{ControlMessageCodec, VarInt, WithLengthCodec};
use moqt_transport::error::{Error, IoErrorKind};
use moqt_transport::message::{
    Announce, AnnounceCancel, AnnounceError, AnnounceOk, ClientSetup, ControlMessage,
    ControlMessageType, Fetch, FetchCancel, FetchError, FetchOk, Goaway, MaxRequestId, Publish,
    PublishError, PublishOk, RequestsBlocked, ServerSetup, Subscribe, SubscribeAnnounces,
    SubscribeAnnouncesError, SubscribeAnnouncesOk, SubscribeDone, SubscribeError, SubscribeOk,
    SubscribeUpdate, TrackStatus, TrackStatusRequest, Unannounce, Unsubscribe,
    UnsubscribeAnnounces,
};
use moqt_transport::model::{Location, Parameter};

fn frame(msg: ControlMessage) -> BytesMut {
    let mut buf = BytesMut::new();
    ControlMessageCodec.encode(msg, &mut buf).unwrap();
    buf
}

fn parameters() -> Vec<Parameter> {
    vec![
        Parameter {
            parameter_type: 1,
            value: b"path".to_vec(),
        },
        Parameter {
            parameter_type: 2,
            value: vec![0x41, 0x2c],
        },
    ]
}

fn one_of_each() -> Vec<ControlMessage> {
    let location = Location {
        group: 10,
        object: 5,
    };
    vec![
        ControlMessage::ClientSetup(ClientSetup {
            supported_versions: vec![1, 0xff00000d],
            setup_parameters: parameters(),
        }),
        ControlMessage::ServerSetup(ServerSetup {
            selected_version: 0xff00000d,
            setup_parameters: parameters(),
        }),
        ControlMessage::Goaway(Goaway {
            new_session_uri: Some("https://example.com/moq".to_string()),
        }),
        ControlMessage::MaxRequestId(MaxRequestId { request_id: 100 }),
        ControlMessage::RequestsBlocked(RequestsBlocked {
            maximum_request_id: 100,
        }),
        ControlMessage::Subscribe(Subscribe {
            request_id: 1,
            track_namespace: 2,
            track_name: "video".to_string(),
            subscriber_priority: 3,
            group_order: 0,
            forward: 1,
            filter_type: 3,
            start_location: Some(location.clone()),
            end_group: None,
            parameters: parameters(),
        }),
        ControlMessage::SubscribeOk(SubscribeOk {
            request_id: 1,
            track_alias: 2,
            expires: 500,
            group_order: 2,
            content_exists: true,
            largest_location: Some(location.clone()),
            parameters: parameters(),
        }),
        ControlMessage::SubscribeError(SubscribeError {
            request_id: 1,
            error_code: 4,
            error_reason: "track missing".to_string(),
        }),
        ControlMessage::SubscribeUpdate(SubscribeUpdate {
            request_id: 1,
            start_location: location.clone(),
            end_group: 20,
            subscriber_priority: 7,
            forward: 0,
            parameters: parameters(),
        }),
        ControlMessage::Unsubscribe(Unsubscribe { request_id: 1 }),
        ControlMessage::SubscribeDone(SubscribeDone {
            request_id: 1,
            status_code: 3,
            stream_count: 2,
            reason: "track ended".to_string(),
        }),
        ControlMessage::Publish(Publish {
            request_id: 1,
            track_namespace: 2,
            track_name: "video".to_string(),
            track_alias: 3,
            group_order: 1,
            content_exists: 1,
            largest: Some(location.clone()),
            forward: 1,
            parameters: parameters(),
        }),
        ControlMessage::PublishOk(PublishOk {
            request_id: 1,
            forward: 1,
            subscriber_priority: 5,
            group_order: 1,
            filter_type: 4,
            start: Some(location.clone()),
            end_group: Some(20),
            parameters: parameters(),
        }),
        ControlMessage::PublishError(PublishError {
            request_id: 1,
            error_code: 2,
            error_reason: "not wanted".to_string(),
        }),
        ControlMessage::Fetch(Fetch {
            request_id: 1,
            subscriber_priority: 2,
            group_order: 1,
            fetch_type: 1,
            track_namespace: Some(3),
            track_name: Some("video".to_string()),
            start_location: Some(location.clone()),
            end_location: Some(Location {
                group: 20,
                object: 0,
            }),
            joining_request_id: None,
            joining_start: None,
            parameters: parameters(),
        }),
        ControlMessage::FetchOk(FetchOk {
            request_id: 1,
            group_order: 1,
            end_of_track: true,
            end_location: location.clone(),
            parameters: parameters(),
        }),
        ControlMessage::FetchError(FetchError {
            request_id: 1,
            error_code: 2,
            error_reason: "no such range".to_string(),
        }),
        ControlMessage::FetchCancel(FetchCancel { request_id: 1 }),
        ControlMessage::TrackStatusRequest(TrackStatusRequest {
            request_id: 1,
            track_namespace: 2,
            track_name: "video".to_string(),
            parameters: parameters(),
        }),
        ControlMessage::TrackStatus(TrackStatus {
            request_id: 1,
            status_code: 0,
            largest_location: location.clone(),
            parameters: parameters(),
        }),
        ControlMessage::Announce(Announce {
            request_id: 1,
            track_namespace: vec!["example.com".to_string(), "meeting=123".to_string()],
            parameters: parameters(),
        }),
        ControlMessage::AnnounceOk(AnnounceOk { request_id: 1 }),
        ControlMessage::AnnounceError(AnnounceError {
            request_id: 1,
            error_code: 2,
            error_reason: "not interested".to_string(),
        }),
        ControlMessage::Unannounce(Unannounce { track_namespace: 2 }),
        ControlMessage::AnnounceCancel(AnnounceCancel {
            track_namespace: 2,
            error_code: 3,
            error_reason: "going away".to_string(),
        }),
        ControlMessage::SubscribeAnnounces(SubscribeAnnounces {
            request_id: 1,
            track_namespace_prefix: vec!["example.com".to_string()],
            parameters: parameters(),
        }),
        ControlMessage::SubscribeAnnouncesOk(SubscribeAnnouncesOk { request_id: 1 }),
        ControlMessage::SubscribeAnnouncesError(SubscribeAnnouncesError {
            request_id: 1,
            error_code: 2,
            error_reason: "unknown prefix".to_string(),
        }),
        ControlMessage::UnsubscribeAnnounces(UnsubscribeAnnounces {
            track_namespace: 2,
            track_name_prefix: "vid".to_string(),
        }),
    ]
}

const CODES: [u64; 29] = [
    0x20, 0x21, 0x10, 0x15, 0x1A, 0x03, 0x04, 0x05, 0x02, 0x0A, 0x0B, 0x1D, 0x1E, 0x1F, 0x16,
    0x18, 0x19, 0x17, 0x0D, 0x0E, 0x06, 0x07, 0x08, 0x09, 0x0C, 0x11, 0x12, 0x13, 0x14,
];

#[test]
fn every_message_comes_back_from_its_frame() {
    for (msg, code) in one_of_each().into_iter().zip(CODES) {
        let mut buf = frame(msg.clone());
        // The frame starts with the type code, then the length of the rest.
        assert_eq!(u64::from(buf[0]), code, "type code of {:?}", msg);
        assert_eq!(usize::from(buf[1]), buf.len() - 2, "length of {:?}", msg);
        assert_eq!(msg.message_type().code(), code);
        let decoded = ControlMessageCodec.decode(&mut buf).unwrap();
        assert_eq!(decoded, Some(msg));
        assert!(buf.is_empty());
    }
}

#[test]
fn every_type_code_names_its_kind_and_no_other_value_does() {
    let mut known = 0;
    for value in 0..=0x40u64 {
        match ControlMessageType::try_from(value) {
            Ok(kind) => {
                assert_eq!(kind.code(), value);
                assert!(CODES.contains(&value));
                known += 1;
            }
            Err(e) => {
                assert_eq!(e, Error::UnknownMessageType);
                assert!(!CODES.contains(&value));
            }
        }
    }
    assert_eq!(known, 29);
    assert_eq!(
        ControlMessageType::try_from(u64::MAX).unwrap_err(),
        Error::UnknownMessageType
    );
    assert_eq!(ControlMessageType::Subscribe.code(), 0x03);
    assert_eq!(
        ControlMessageType::try_from(0x1A).unwrap(),
        ControlMessageType::RequestsBlocked
    );
}

#[test]
fn a_frame_that_is_not_all_there_is_left_in_the_buffer() {
    let whole = frame(ControlMessage::Subscribe(Subscribe {
        request_id: 1,
        track_namespace: 2,
        track_name: "video".to_string(),
        subscriber_priority: 3,
        group_order: 1,
        forward: 1,
        filter_type: 2,
        start_location: None,
        end_group: None,
        parameters: Vec::new(),
    }));
    for cut in 0..whole.len() {
        let mut buf = BytesMut::from(&whole[..cut]);
        assert_eq!(ControlMessageCodec.decode(&mut buf).unwrap(), None);
        assert_eq!(buf.as_ref(), &whole[..cut], "after {} bytes", cut);
    }
    let mut buf = whole.clone();
    assert!(ControlMessageCodec.decode(&mut buf).unwrap().is_some());
}

#[test]
fn a_type_code_in_two_bytes_with_its_length_missing_is_left_in_the_buffer() {
    // Type 0x15 written in two bytes, then nothing.
    let mut buf = BytesMut::from(&[0x40u8, 0x15][..]);
    assert_eq!(ControlMessageCodec.decode(&mut buf).unwrap(), None);
    assert_eq!(buf.as_ref(), &[0x40, 0x15]);
    // The length arrives, and the payload.
    buf.put_slice(&[0x01, 0x05]);
    assert_eq!(
        ControlMessageCodec.decode(&mut buf).unwrap(),
        Some(ControlMessage::MaxRequestId(MaxRequestId { request_id: 5 }))
    );
    assert!(buf.is_empty());
}

#[test]
fn frames_are_read_one_after_another() {
    let mut buf = frame(ControlMessage::MaxRequestId(MaxRequestId { request_id: 5 }));
    buf.put_slice(&frame(ControlMessage::Unsubscribe(Unsubscribe {
        request_id: 9,
    })));
    buf.put_u8(0x1A);
    assert_eq!(
        ControlMessageCodec.decode(&mut buf).unwrap(),
        Some(ControlMessage::MaxRequestId(MaxRequestId { request_id: 5 }))
    );
    assert_eq!(
        ControlMessageCodec.decode(&mut buf).unwrap(),
        Some(ControlMessage::Unsubscribe(Unsubscribe { request_id: 9 }))
    );
    assert_eq!(ControlMessageCodec.decode(&mut buf).unwrap(), None);
    assert_eq!(buf.as_ref(), &[0x1A]);
}

#[test]
fn unknown_type_is_refused_once_the_frame_is_there() {
    let mut buf = BytesMut::from(&[0x3Fu8, 0x02, 0x00][..]);
    assert_eq!(ControlMessageCodec.decode(&mut buf).unwrap(), None);
    assert_eq!(buf.as_ref(), &[0x3F, 0x02, 0x00]);
    buf.put_slice(&[0x00, 0x0A, 0x01, 0x09]);
    assert_eq!(
        ControlMessageCodec.decode(&mut buf).unwrap_err(),
        Error::UnknownMessageType
    );
    // The frame is gone, and the one behind it is read.
    assert_eq!(buf.as_ref(), &[0x0A, 0x01, 0x09]);
    assert_eq!(
        ControlMessageCodec.decode(&mut buf).unwrap(),
        Some(ControlMessage::Unsubscribe(Unsubscribe { request_id: 9 }))
    );
}

#[test]
fn bytes_left_over_in_a_payload_are_a_violation() {
    // MAX_REQUEST_ID with a payload of two bytes, of which the message is one.
    let mut buf = BytesMut::from(&[0x15u8, 0x02, 0x05, 0x00, 0xAA][..]);
    let err = ControlMessageCodec.decode(&mut buf).unwrap_err();
    assert!(matches!(err, Error::ProtocolViolation { .. }), "{:?}", err);
    // The frame is taken all the same.
    assert_eq!(buf.as_ref(), &[0xAA]);
}

#[test]
fn a_payload_that_ends_inside_a_field_is_an_error_not_a_wait() {
    // The frame is all there, but its one byte only starts a two-byte integer.
    let mut buf = BytesMut::from(&[0x15u8, 0x01, 0x40, 0x05][..]);
    match ControlMessageCodec.decode(&mut buf).unwrap_err() {
        Error::Io(e) => assert_eq!(e.kind(), IoErrorKind::UnexpectedEof),
        other => panic!("unexpected error: {:?}", other),
    }
    // The payload was one byte; the byte behind it is not part of the frame.
    assert_eq!(buf.as_ref(), &[0x05]);
    // An empty payload likewise.
    let mut buf = BytesMut::from(&[0x0Au8, 0x00][..]);
    match ControlMessageCodec.decode(&mut buf).unwrap_err() {
        Error::Io(e) => assert_eq!(e.kind(), IoErrorKind::UnexpectedEof),
        other => panic!("unexpected error: {:?}", other),
    }
    assert!(buf.is_empty());
}

#[test]
fn a_message_that_is_refused_leaves_no_trace_in_the_buffer() {
    let mut buf = BytesMut::from(&[0xEEu8][..]);
    let err = ControlMessageCodec
        .encode(
            ControlMessage::MaxRequestId(MaxRequestId {
                request_id: 1 << 62,
            }),
            &mut buf,
        )
        .unwrap_err();
    assert_eq!(err, Error::VarIntRange);
    assert_eq!(buf.as_ref(), &[0xEE]);
    let err = ControlMessageCodec
        .encode(
            ControlMessage::SubscribeOk(SubscribeOk {
                request_id: 1,
                track_alias: 2,
                expires: 0,
                group_order: 0,
                content_exists: false,
                largest_location: None,
                parameters: Vec::new(),
            }),
            &mut buf,
        )
        .unwrap_err();
    assert!(matches!(err, Error::ProtocolViolation { .. }), "{:?}", err);
    assert_eq!(buf.as_ref(), &[0xEE]);
}

#[test]
fn a_long_payload_has_its_length_in_two_bytes() {
    let reason = "x".repeat(100);
    let mut buf = frame(ControlMessage::SubscribeError(SubscribeError {
        request_id: 1,
        error_code: 2,
        error_reason: reason.clone(),
    }));
    // Payload: two integers of one byte, a length of two bytes, the text.
    assert_eq!(&buf[..3], &[0x05, 0x40, 104]);
    assert_eq!(buf.len(), 3 + 104);
    match ControlMessageCodec.decode(&mut buf).unwrap() {
        Some(ControlMessage::SubscribeError(e)) => assert_eq!(e.error_reason, reason),
        other => panic!("unexpected message: {:?}", other),
    }
}

#[test]
fn setup_handshake() {
    let mut codec = ControlMessageCodec;
    let client_setup = ClientSetup {
        supported_versions: vec![1, 0xff00000d],
        setup_parameters: vec![
            Parameter {
                parameter_type: 1,
                value: b"/".to_vec(),
            },
            Parameter {
                parameter_type: 2,
                value: vec![5],
            },
        ],
    };
    let mut to_server = BytesMut::new();
    codec
        .encode(ControlMessage::ClientSetup(client_setup.clone()), &mut to_server)
        .unwrap();
    assert_eq!(
        to_server.as_ref(),
        &[
            0x20, 16, // CLIENT_SETUP, sixteen bytes
            2, 1, 0xc0, 0, 0, 0, 0xff, 0, 0, 0x0d, // two versions
            2, 1, 1, b'/', 2, 5, // two parameters
        ]
    );
    let offered = match codec.decode(&mut to_server).unwrap() {
        Some(ControlMessage::ClientSetup(setup)) => setup,
        other => panic!("unexpected message: {:?}", other),
    };
    assert_eq!(offered, client_setup);
    assert!(to_server.is_empty());

    let server_setup = ServerSetup {
        selected_version: offered.supported_versions[0],
        setup_parameters: vec![Parameter {
            parameter_type: 2,
            value: vec![5],
        }],
    };
    let mut to_client = BytesMut::new();
    codec
        .encode(ControlMessage::ServerSetup(server_setup.clone()), &mut to_client)
        .unwrap();
    assert_eq!(to_client.as_ref(), &[0x21, 4, 1, 1, 2, 5]);
    let chosen = match codec.decode(&mut to_client).unwrap() {
        Some(ControlMessage::ServerSetup(setup)) => setup,
        other => panic!("unexpected message: {:?}", other),
    };
    assert_eq!(chosen, server_setup);
    assert_eq!(chosen.selected_version, 1);
    assert!(to_client.is_empty());
}

#[test]
fn length_codec_writes_the_length_and_then_the_value() {
    let mut codec = WithLengthCodec::new();
    let mut buf = BytesMut::new();
    codec
        .encode(
            Location {
                group: 300,
                object: 5,
            },
            &mut buf,
        )
        .unwrap();
    assert_eq!(buf.as_ref(), &[3, 0x41, 0x2c, 0x05]);
    codec
        .encode(MaxRequestId { request_id: 7 }, &mut buf)
        .unwrap();
    assert_eq!(buf.as_ref(), &[3, 0x41, 0x2c, 0x05, 1, 7]);

    let mut locations = WithLengthCodec::<Location>::of();
    assert_eq!(
        locations.decode(&mut buf).unwrap(),
        Some(Location {
            group: 300,
            object: 5
        })
    );
    assert_eq!(buf.as_ref(), &[1, 7]);
    let mut limits = WithLengthCodec::<MaxRequestId>::of();
    assert_eq!(
        limits.decode(&mut buf).unwrap(),
        Some(MaxRequestId { request_id: 7 })
    );
    assert!(buf.is_empty());
    assert_eq!(limits.decode(&mut buf).unwrap(), None);
}

#[test]
fn length_codec_waits_for_the_whole_value_and_refuses_what_is_left_over() {
    let mut locations = WithLengthCodec::<Location>::of();
    for bytes in [&[][..], &[0x40][..], &[3][..], &[3, 0x41, 0x2c][..]] {
        let mut buf = BytesMut::from(bytes);
        assert_eq!(locations.decode(&mut buf).unwrap(), None);
        assert_eq!(buf.as_ref(), bytes);
    }
    // Three bytes, of which the location is two: the value is taken and refused.
    let mut buf = BytesMut::from(&[3u8, 1, 2, 3, 0xAA][..]);
    let err = locations.decode(&mut buf).unwrap_err();
    assert!(matches!(err, Error::ProtocolViolation { .. }), "{:?}", err);
    assert_eq!(buf.as_ref(), &[0xAA]);
    let mut buf = BytesMut::from(&[1u8, 1, 0xAA][..]);
    match locations.decode(&mut buf).unwrap_err() {
        Error::Io(e) => assert_eq!(e.kind(), IoErrorKind::UnexpectedEof),
        other => panic!("unexpected error: {:?}", other),
    }
    assert_eq!(buf.as_ref(), &[0xAA]);
    let mut buf = BytesMut::from(&[0xEEu8][..]);
    let err = WithLengthCodec::new()
        .encode(
            Location {
                group: 1 << 62,
                object: 0,
            },
            &mut buf,
        )
        .unwrap_err();
    assert_eq!(err, Error::VarIntRange);
    assert_eq!(buf.as_ref(), &[0xEE]);
    // The codec of integers is there to build such input with.
    let mut buf = BytesMut::new();
    VarInt.encode(3, &mut buf).unwrap();
    assert_eq!(buf.as_ref(), &[3]);
}
