use bytes::{BufMut, BytesMut};
use moqt_transport::buffer::append;
use moqt_transport::codec::{Decode, Encode, VarInt};
use moqt_transport::error::{Error, IoError, IoErrorKind};
use moqt_transport::model::{Location, Parameter};

fn encoded<T: Encode>(value: &T) -> Vec<u8> {
    let mut buf = BytesMut::new();
    value.encode(&mut buf).unwrap();
    buf.to_vec()
}

fn refused<T: Encode>(value: &T) -> Error {
    // Something is in the buffer already, to see that a refusal leaves it alone.
    let mut buf = BytesMut::from(&[0xEE][..]);
    let err = value.encode(&mut buf).unwrap_err();
    assert_eq!(buf.as_ref(), &[0xEE]);
    err
}

fn unread<T: Decode + std::fmt::Debug>(bytes: &[u8]) -> Error {
    let mut buf = BytesMut::from(bytes);
    let err = T::decode(&mut buf).unwrap_err();
    assert_eq!(buf.as_ref(), bytes);
    err
}

fn eof() -> IoErrorKind {
    IoErrorKind::UnexpectedEof
}

fn kind_of(e: Error) -> IoErrorKind {
    match e {
        Error::Io(inner) => inner.kind(),
        other => panic!("unexpected error: {:?}", other),
    }
}

fn is_violation(e: &Error) -> bool {
    matches!(e, Error::ProtocolViolation { .. })
}

#[test]
fn varint_length_classes_change_at_their_bounds() {
    let cases: &[(u64, usize)] = &[
        (0, 1),
        (63, 1),
        (64, 2),
        (16383, 2),
        (16384, 4),
        ((1 << 30) - 1, 4),
        (1 << 30, 8),
        ((1 << 62) - 1, 8),
    ];
    for (value, len) in cases {
        let mut buf = BytesMut::new();
        VarInt.encode(*value, &mut buf).unwrap();
        assert_eq!(buf.len(), *len, "length of {}", value);
        assert_eq!(buf[0] >> 6, [0u8, 0, 1, 0, 2, 0, 0, 0, 3][*len], "prefix of {}", value);
        assert_eq!(VarInt.decode(&mut buf).unwrap(), Some(*value));
        assert!(buf.is_empty());
    }
}

#[test]
fn varint_largest_value_is_all_ones() {
    let mut buf = BytesMut::new();
    VarInt.encode((1 << 62) - 1, &mut buf).unwrap();
    assert_eq!(buf.as_ref(), &[0xff; 8]);
}

#[test]
fn varint_out_of_range_is_refused_and_writes_nothing() {
    for value in [1u64 << 62, (1 << 62) + 1, u64::MAX] {
        let mut buf = BytesMut::from(&[7u8][..]);
        assert_eq!(VarInt.encode(value, &mut buf).unwrap_err(), Error::VarIntRange);
        assert_eq!(buf.as_ref(), &[7]);
    }
}

#[test]
fn varint_appends_to_what_is_there() {
    let mut buf = BytesMut::from(&[1u8, 2][..]);
    VarInt.encode(300, &mut buf).unwrap();
    assert_eq!(buf.as_ref(), &[1, 2, 0x41, 0x2c]);
}

#[test]
fn varint_decode_takes_only_its_own_bytes() {
    let mut buf = BytesMut::from(&[0x41u8, 0x2c, 0xAA, 0xBB][..]);
    assert_eq!(VarInt.decode(&mut buf).unwrap(), Some(300));
    assert_eq!(buf.as_ref(), &[0xAA, 0xBB]);
}

#[test]
fn varint_decode_accepts_longer_encodings() {
    let cases: &[(&[u8], u64)] = &[
        (&[0x40, 0x05], 5),
        (&[0x80, 0x00, 0x00, 0x05], 5),
        (&[0xc0, 0, 0, 0, 0, 0, 0, 0x05], 5),
        (&[0x80, 0x00, 0x01, 0x2c], 300),
    ];
    for (bytes, value) in cases {
        let mut buf = BytesMut::from(*bytes);
        assert_eq!(VarInt.decode(&mut buf).unwrap(), Some(*value));
        assert!(buf.is_empty());
    }
}

#[test]
fn varint_decode_of_too_few_bytes_takes_nothing() {
    let cases: &[&[u8]] = &[
        &[],
        &[0x40],
        &[0x80, 1, 2],
        &[0xc0, 1, 2, 3, 4, 5, 6],
    ];
    for bytes in cases {
        let mut buf = BytesMut::from(*bytes);
        assert_eq!(VarInt.decode(&mut buf).unwrap(), None);
        assert_eq!(buf.as_ref(), *bytes);
    }
}

#[test]
fn integers_and_versions_travel_as_varints() {
    assert_eq!(encoded(&300u64), vec![0x41, 0x2c]);
    assert_eq!(encoded(&0xff00000du32), vec![0xc0, 0, 0, 0, 0xff, 0, 0, 0x0d]);
    assert_eq!(refused(&(1u64 << 62)), Error::VarIntRange);
    let mut buf = BytesMut::from(&[0x41u8, 0x2c][..]);
    assert_eq!(u64::decode(&mut buf).unwrap(), 300);
    let mut buf = BytesMut::from(&[0x41u8, 0x2c][..]);
    assert_eq!(u32::decode(&mut buf).unwrap(), 300);
    // 2^32 does not fit a version.
    assert_eq!(
        unread::<u32>(&[0xc0, 0, 0, 1, 0, 0, 0, 0]),
        Error::VarIntRange
    );
    assert_eq!(kind_of(unread::<u64>(&[0x41])), eof());
}

#[test]
fn text_travels_behind_its_length_in_bytes() {
    assert_eq!(encoded(&"hi".to_string()), vec![2, b'h', b'i']);
    assert_eq!(encoded(&String::new()), vec![0]);
    // One character, two bytes.
    assert_eq!(encoded(&"é".to_string()), vec![2, 0xc3, 0xa9]);
    let mut buf = BytesMut::from(&[2u8, 0xc3, 0xa9, b'x'][..]);
    assert_eq!(String::decode(&mut buf).unwrap(), "é");
    assert_eq!(buf.as_ref(), b"x");
}

#[test]
fn text_that_is_cut_short_or_not_utf8_is_not_read() {
    assert_eq!(kind_of(unread::<String>(&[])), eof());
    assert_eq!(kind_of(unread::<String>(&[3, b'a', b'b'])), eof());
    assert_eq!(
        kind_of(unread::<String>(&[2, 0xff, 0xfe])),
        IoErrorKind::InvalidData
    );
    // The first byte of a two-byte character, and nothing after it.
    assert_eq!(
        kind_of(unread::<String>(&[1, 0xc3])),
        IoErrorKind::InvalidData
    );
}

#[test]
fn location_is_group_then_object() {
    let location = Location {
        group: 300,
        object: 5,
    };
    assert_eq!(encoded(&location), vec![0x41, 0x2c, 0x05]);
    let mut buf = BytesMut::from(&[0x41u8, 0x2c, 0x05, 0x99][..]);
    assert_eq!(Location::decode(&mut buf).unwrap(), location);
    assert_eq!(buf.as_ref(), &[0x99]);
}

#[test]
fn location_refusals() {
    assert_eq!(
        refused(&Location {
            group: 1 << 62,
            object: 0
        }),
        Error::VarIntRange
    );
    assert_eq!(
        refused(&Location {
            group: 0,
            object: 1 << 62
        }),
        Error::VarIntRange
    );
    assert_eq!(kind_of(unread::<Location>(&[])), eof());
    assert_eq!(kind_of(unread::<Location>(&[0x05])), eof());
    assert_eq!(kind_of(unread::<Location>(&[0x05, 0x40])), eof());
}

#[test]
fn locations_are_ordered_by_group_then_object() {
    let at = |group, object| Location { group, object };
    assert!(at(1, 9).precedes(&at(2, 0)));
    assert!(at(2, 0).precedes(&at(2, 1)));
    assert!(!at(2, 1).precedes(&at(2, 1)));
    assert!(!at(2, 1).precedes(&at(2, 0)));
    assert!(!at(3, 0).precedes(&at(2, 9)));
    assert!(at(0, 0).is_origin());
    assert!(!at(0, 1).is_origin());
    assert!(!at(1, 0).is_origin());
}

#[test]
fn parameter_of_even_type_carries_a_bare_varint() {
    let parameter = Parameter {
        parameter_type: 2,
        value: vec![0x41, 0x2c],
    };
    assert_eq!(encoded(&parameter), vec![0x02, 0x41, 0x2c]);
    let mut buf = BytesMut::from(&[0x02u8, 0x41, 0x2c, 0x77][..]);
    assert_eq!(Parameter::decode(&mut buf).unwrap(), parameter);
    assert_eq!(buf.as_ref(), &[0x77]);
}

#[test]
fn parameter_of_odd_type_carries_bytes_behind_their_length() {
    let parameter = Parameter {
        parameter_type: 1,
        value: b"/".to_vec(),
    };
    assert_eq!(encoded(&parameter), vec![0x01, 0x01, b'/']);
    let empty = Parameter {
        parameter_type: 3,
        value: Vec::new(),
    };
    assert_eq!(encoded(&empty), vec![0x03, 0x00]);
    let mut buf = BytesMut::from(&[0x03u8, 0x00][..]);
    assert_eq!(Parameter::decode(&mut buf).unwrap(), empty);
    assert!(buf.is_empty());
}

#[test]
fn parameter_value_is_read_back_in_its_shortest_form() {
    // The integer 5, written in two bytes.
    let mut buf = BytesMut::from(&[0x02u8, 0x40, 0x05][..]);
    let parameter = Parameter::decode(&mut buf).unwrap();
    assert_eq!(
        parameter,
        Parameter {
            parameter_type: 2,
            value: vec![0x05]
        }
    );
    assert!(buf.is_empty());
}

#[test]
fn parameter_refusals_on_encode() {
    let even = |value: Vec<u8>| Parameter {
        parameter_type: 4,
        value,
    };
    assert!(is_violation(&refused(&even(Vec::new()))));
    assert!(is_violation(&refused(&even(vec![0; 9]))));
    // Bytes that are no integer: too many for their first byte, or too few.
    assert!(is_violation(&refused(&even(vec![7, 8]))));
    assert!(is_violation(&refused(&even(vec![0x40]))));
    assert!(is_violation(&refused(&even(vec![0xc0, 0, 0, 0, 0, 0, 0]))));
    // An integer in a longer form than the shortest is written as it stands.
    assert_eq!(encoded(&even(vec![0x40, 0x05])), vec![0x04, 0x40, 0x05]);
    assert_eq!(
        encoded(&even(vec![0xc0, 0, 0, 0, 0, 0, 0, 5])),
        vec![0x04, 0xc0, 0, 0, 0, 0, 0, 0, 5]
    );
    let odd = |len: usize| Parameter {
        parameter_type: 5,
        value: vec![0; len],
    };
    assert!(is_violation(&refused(&odd(65536))));
    assert_eq!(encoded(&odd(65535)).len(), 1 + 4 + 65535);
    assert_eq!(
        refused(&Parameter {
            parameter_type: 1 << 62,
            value: vec![1]
        }),
        Error::VarIntRange
    );
}

#[test]
fn parameter_refusals_on_decode() {
    assert_eq!(kind_of(unread::<Parameter>(&[])), eof());
    assert_eq!(kind_of(unread::<Parameter>(&[0x02])), eof());
    assert_eq!(kind_of(unread::<Parameter>(&[0x02, 0x40])), eof());
    assert_eq!(kind_of(unread::<Parameter>(&[0x01])), eof());
    assert_eq!(kind_of(unread::<Parameter>(&[0x01, 0x02, b'a'])), eof());
    // A length of 65536, before any of the value is looked at.
    assert!(is_violation(&unread::<Parameter>(&[
        0x01, 0x80, 0x01, 0x00, 0x00
    ])));
    let mut longest = BytesMut::new();
    longest.put_slice(&[0x01, 0x80, 0x00, 0xff, 0xff]);
    longest.put_bytes(7, 65535);
    let parameter = Parameter::decode(&mut longest).unwrap();
    assert_eq!(parameter.value.len(), 65535);
    assert!(longest.is_empty());
}

#[test]
fn errors_say_what_failed() {
    let e = Error::unexpected_eof("request id");
    assert_eq!(
        e,
        Error::Io(IoError {
            kind: IoErrorKind::UnexpectedEof,
            message: "request id".to_string()
        })
    );
    assert_eq!(kind_of(Error::invalid_data("text")), IoErrorKind::InvalidData);
    assert_eq!(
        Error::violation("invalid group order"),
        Error::ProtocolViolation {
            reason: "invalid group order".to_string()
        }
    );
    assert_eq!(
        IoError::new(IoErrorKind::InvalidData, "x").kind(),
        IoErrorKind::InvalidData
    );
}

#[test]
fn append_adds_the_bytes_behind_what_is_there() {
    let mut buf = BytesMut::from(&b"ab"[..]);
    append(&mut buf, b"cd").unwrap();
    append(&mut buf, b"").unwrap();
    append(&mut buf, b"e").unwrap();
    assert_eq!(buf.as_ref(), b"abcde");
}
