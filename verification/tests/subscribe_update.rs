use bytes::{BufMut, BytesMut};
use moqt_transport::codec::{Decode, Encode, VarInt};
use moqt_transport::message::SubscribeUpdate;
use moqt_transport::model::{Location, Parameter};

#[test]
fn subscribe_update_encode_decode_roundtrip() {
    let msg = SubscribeUpdate {
        request_id: 1,
        start_location: Location { group: 5, object: 2 },
        end_group: 10,
        subscriber_priority: 3,
        forward: 1,
        parameters: vec![Parameter { parameter_type: 1, value: vec![42] }],
    };

    let mut buf = BytesMut::new();
    msg.encode(&mut buf).unwrap();

    let mut decode_buf = buf.clone();
    let decoded = SubscribeUpdate::decode(&mut decode_buf).unwrap();
    assert!(decode_buf.is_empty());
    assert_eq!(decoded, msg);
}

#[test]
fn decode_fails_on_invalid_forward() {
    let mut buf = BytesMut::new();
    let mut vi = VarInt;
    vi.encode(1, &mut buf).unwrap(); // request_id
    Location { group: 1, object: 0 }.encode(&mut buf).unwrap();
    vi.encode(0, &mut buf).unwrap(); // end_group
    buf.put_u8(0); // subscriber_priority
    buf.put_u8(2); // invalid forward
    vi.encode(0, &mut buf).unwrap(); // no parameters

    assert!(SubscribeUpdate::decode(&mut buf).is_err());
}
