use bytes::{BufMut, BytesMut};
use moqt_transport::codec::{Decode, Encode, VarInt};
use moqt_transport::error::{Error, IoErrorKind};
use moqt_transport::message::ClientSetup;
use moqt_transport::model::Parameter;

#[test]
fn client_setup_encode_decode_roundtrip() {
    let msg = ClientSetup {
        supported_versions: vec![1, 0xff00000d],
        setup_parameters: vec![
            Parameter {
                parameter_type: 0x01,
                value: b"/".to_vec(),
            },
            Parameter {
                parameter_type: 0x02,
                value: vec![5],
            },
        ],
    };

    let mut buf = BytesMut::new();
    msg.encode(&mut buf).unwrap();

    let mut decode_buf = buf.clone();
    let decoded = ClientSetup::decode(&mut decode_buf).unwrap();
    assert!(decode_buf.is_empty());
    assert_eq!(decoded, msg);
}

#[test]
fn client_setup_decode_incomplete() {
    let mut buf = BytesMut::new();
    match ClientSetup::decode(&mut buf) {
        Err(Error::Io(e)) => {
            assert_eq!(e.kind(), IoErrorKind::UnexpectedEof);
        }
        r => panic!("unexpected result: {:?}", r),
    }
}

#[test]
fn decode_truncated_parameter_value() {
    // Build a buffer manually with one version and a single parameter
    // whose declared length is larger than the available data.
    let mut buf = BytesMut::new();
    let mut vi = VarInt;

    // One supported version (value 1)
    vi.encode(1, &mut buf).unwrap();
    vi.encode(1, &mut buf).unwrap();

    // One parameter
    vi.encode(1, &mut buf).unwrap();
    // Parameter Type = 0x01
    vi.encode(0x01, &mut buf).unwrap();
    // Declare length 2 but only provide 1 byte
    vi.encode(2, &mut buf).unwrap();
    buf.put_u8(b'/');

    match ClientSetup::decode(&mut buf) {
        Err(Error::Io(e)) => {
            assert_eq!(e.kind(), IoErrorKind::UnexpectedEof);
        }
        r => panic!("unexpected result: {:?}", r),
    }
}

#[test]
fn client_setup_encode_decode_roundtrip_no_parameters() {
    let msg = ClientSetup {
        supported_versions: vec![1],
        setup_parameters: Vec::new(),
    };

    let mut buf = BytesMut::new();
    msg.encode(&mut buf).unwrap();

    let mut decode_buf = buf.clone();
    let decoded = ClientSetup::decode(&mut decode_buf).unwrap();
    assert!(decode_buf.is_empty());
    assert_eq!(decoded, msg);
}

#[test]
fn decode_truncated_versions() {
    let mut buf = BytesMut::new();
    let mut vi = VarInt;

    // Declare two versions but only encode one value.
    vi.encode(2, &mut buf).unwrap();
    vi.encode(1, &mut buf).unwrap();

    match ClientSetup::decode(&mut buf) {
        Err(Error::Io(e)) => {
            assert_eq!(e.kind(), IoErrorKind::UnexpectedEof);
        }
        r => panic!("unexpected result: {:?}", r),
    }
}
