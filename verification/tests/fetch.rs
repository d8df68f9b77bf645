use bytes::BytesMut;
use moqt_transport::codec::{Decode, Encode};
use moqt_transport::message::Fetch;
use moqt_transport::model::{Location, Parameter};

#[test]
fn encode_decode_roundtrip_standalone() {
    let msg = Fetch {
        request_id: 1,
        subscriber_priority: 2,
        group_order: 1,
        fetch_type: 0x1,
        track_namespace: Some(3),
        track_name: Some("video".into()),
        start_location: Some(Location {
            group: 10,
            object: 5,
        }),
        end_location: Some(Location {
            group: 20,
            object: 0,
        }),
        joining_request_id: None,
        joining_start: None,
        parameters: vec![Parameter {
            parameter_type: 4,
            value: vec![0x47, 0x08], // 1800, in two bytes
        }],
    };

    let mut buf = BytesMut::new();
    msg.encode(&mut buf).unwrap();

    let mut decode_buf = buf.clone();
    let decoded = Fetch::decode(&mut decode_buf).unwrap();
    assert!(decode_buf.is_empty());
    assert_eq!(decoded, msg);
}

#[test]
fn encode_decode_roundtrip_joining() {
    let msg = Fetch {
        request_id: 5,
        subscriber_priority: 0,
        group_order: 0,
        fetch_type: 0x2,
        track_namespace: None,
        track_name: None,
        start_location: None,
        end_location: None,
        joining_request_id: Some(42),
        joining_start: Some(3),
        parameters: Vec::new(),
    };

    let mut buf = BytesMut::new();
    msg.encode(&mut buf).unwrap();

    let mut decode_buf = buf.clone();
    let decoded = Fetch::decode(&mut decode_buf).unwrap();
    assert!(decode_buf.is_empty());
    assert_eq!(decoded, msg);
}
