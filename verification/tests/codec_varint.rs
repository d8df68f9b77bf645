use bytes::BytesMut;
use moqt_transport::codec::VarInt;

#[test]
fn encode_examples() {
    let cases: &[(u64, &[u8])] = &[
        (0, &[0x00]),
        (63, &[0x3f]),
        (64, &[0x40, 0x40]),
        (16383, &[0x7f, 0xff]),
        (16384, &[0x80, 0x00, 0x40, 0x00]),
        (1073741823, &[0xbf, 0xff, 0xff, 0xff]),
        (
            1073741824,
            &[0xc0, 0x00, 0x00, 0x00, 0x40, 0x00, 0x00, 0x00],
        ),
    ];

    for (value, expected) in cases {
        let mut buf = BytesMut::new();
        VarInt.encode(*value, &mut buf).unwrap();
        assert_eq!(buf.as_ref(), *expected);
    }
}

#[test]
fn decode_examples() {
    let cases: &[(u64, &[u8])] = &[
        (0, &[0x00]),
        (63, &[0x3f]),
        (64, &[0x40, 0x40]),
        (16383, &[0x7f, 0xff]),
        (16384, &[0x80, 0x00, 0x40, 0x00]),
        (1073741823, &[0xbf, 0xff, 0xff, 0xff]),
        (
            1073741824,
            &[0xc0, 0x00, 0x00, 0x00, 0x40, 0x00, 0x00, 0x00],
        ),
    ];

    for (expected, bytes) in cases {
        let mut buf = BytesMut::from(*bytes);
        let value = VarInt.decode(&mut buf).unwrap().unwrap();
        assert_eq!(value, *expected);
        assert!(buf.is_empty());
    }
}

#[test]
fn decode_incomplete_returns_none() {
    let mut buf = BytesMut::from(&b"\x40"[..]);
    assert!(VarInt.decode(&mut buf).unwrap().is_none());
    assert_eq!(buf.len(), 1);
}
