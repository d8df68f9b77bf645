use bytes::{BufMut, BytesMut};
use moqt_transport::codec::{Decode, Encode, VarInt};
use moqt_transport::message::TrackStatus;
use moqt_transport::model::{Location, Parameter};

#[test]
fn encode_decode_roundtrip_progress() {
    let msg = TrackStatus {
        request_id: 1,
        status_code: 0x00,
        largest_location: Location {
            group: 10,
            object: 5,
        },
        parameters: vec![Parameter {
            parameter_type: 2,
            value: vec![42],
        }],
    };

    let mut buf = BytesMut::new();
    msg.encode(&mut buf).unwrap();

    let mut decode_buf = buf.clone();
    let decoded = TrackStatus::decode(&mut decode_buf).unwrap();
    assert!(decode_buf.is_empty());
    assert_eq!(decoded, msg);
}

#[test]
fn encode_decode_roundtrip_not_started() {
    let msg = TrackStatus {
        request_id: 5,
        status_code: 0x02,
        largest_location: Location {
            group: 0,
            object: 0,
        },
        parameters: Vec::new(),
    };

    let mut buf = BytesMut::new();
    msg.encode(&mut buf).unwrap();

    let mut decode_buf = buf.clone();
    let decoded = TrackStatus::decode(&mut decode_buf).unwrap();
    assert!(decode_buf.is_empty());
    assert_eq!(decoded, msg);
}

#[test]
fn encode_fails_on_nonzero_location_for_nonexistent() {
    let msg = TrackStatus {
        request_id: 1,
        status_code: 0x01,
        largest_location: Location {
            group: 1,
            object: 0,
        },
        parameters: Vec::new(),
    };

    let mut buf = BytesMut::new();
    assert!(msg.encode(&mut buf).is_err());
}

#[test]
fn decode_fails_on_invalid_status_code() {
    let mut buf = BytesMut::new();
    let mut vi = VarInt;
    vi.encode(1, &mut buf).unwrap(); // request_id
    vi.encode(0x09, &mut buf).unwrap(); // invalid status code
    Location {
        group: 0,
        object: 0,
    }
    .encode(&mut buf)
    .unwrap();
    vi.encode(0, &mut buf).unwrap();

    assert!(TrackStatus::decode(&mut buf).is_err());
}

#[test]
fn decode_fails_on_nonzero_fields_for_not_started() {
    let mut buf = BytesMut::new();
    let mut vi = VarInt;
    vi.encode(1, &mut buf).unwrap(); // request_id
    vi.encode(0x02, &mut buf).unwrap(); // status code (not yet begun)
    Location {
        group: 1,
        object: 0,
    }
    .encode(&mut buf)
    .unwrap();
    vi.encode(1, &mut buf).unwrap(); // parameters len
    vi.encode(1, &mut buf).unwrap(); // param type
    vi.encode(1, &mut buf).unwrap(); // param len
    buf.put_u8(0);

    assert!(TrackStatus::decode(&mut buf).is_err());
}
