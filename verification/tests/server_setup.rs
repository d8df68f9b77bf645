use bytes::{BufMut, BytesMut};
use moqt_transport::codec::{ControlMessageCodec, Decode, Encode, VarInt};
use moqt_transport::error::{Error, IoErrorKind};
use moqt_transport::message::{ControlMessage, ServerSetup};
use moqt_transport::model::Parameter;

#[test]
fn server_setup_encode_decode_roundtrip() {
    let msg = ServerSetup {
        selected_version: 1,
        setup_parameters: vec![
            Parameter {
                parameter_type: 0x02,
                value: vec![5],
            },
            Parameter {
                parameter_type: 0x04,
                value: vec![0x41, 0x02], // 258, in two bytes
            },
        ],
    };

    let mut buf = BytesMut::new();
    msg.encode(&mut buf).unwrap();

    let mut decode_buf = buf.clone();
    let decoded = ServerSetup::decode(&mut decode_buf).unwrap();
    assert!(decode_buf.is_empty());
    assert_eq!(decoded, msg);
}

#[test]
fn server_setup_encode_decode_roundtrip_no_parameters() {
    let msg = ServerSetup {
        selected_version: 1,
        setup_parameters: Vec::new(),
    };

    let mut buf = BytesMut::new();
    msg.encode(&mut buf).unwrap();

    let mut decode_buf = buf.clone();
    let decoded = ServerSetup::decode(&mut decode_buf).unwrap();
    assert!(decode_buf.is_empty());
    assert_eq!(decoded, msg);
}

#[test]
fn server_setup_decode_incomplete() {
    let mut buf = BytesMut::new();
    match ServerSetup::decode(&mut buf) {
        Err(Error::Io(e)) => {
            assert_eq!(e.kind(), IoErrorKind::UnexpectedEof);
        }
        r => panic!("unexpected result: {:?}", r),
    }
}

#[test]
fn decode_incomplete_parameter_value() {
    let mut buf = BytesMut::new();
    let mut vi = VarInt;
    vi.encode(1, &mut buf).unwrap(); // selected_version
    vi.encode(1, &mut buf).unwrap(); // number of parameters
    vi.encode(0x01, &mut buf).unwrap(); // parameter type
    vi.encode(3, &mut buf).unwrap(); // parameter length
    buf.put_slice(&[1, 2]); // missing one byte of value

    match ServerSetup::decode(&mut buf) {
        Err(Error::Io(e)) => {
            assert_eq!(e.kind(), IoErrorKind::UnexpectedEof);
        }
        r => panic!("unexpected result: {:?}", r),
    }
}

#[test]
fn codec_roundtrip() {
    let msg = ServerSetup {
        selected_version: 1,
        setup_parameters: vec![Parameter {
            parameter_type: 0x02,
            value: vec![5],
        }],
    };

    let mut codec = ControlMessageCodec;
    let mut buf = BytesMut::new();
    codec
        .encode(ControlMessage::ServerSetup(msg.clone()), &mut buf)
        .unwrap();

    let decoded = codec.decode(&mut buf).unwrap().unwrap();
    match decoded {
        ControlMessage::ServerSetup(d) => assert_eq!(d, msg),
        _ => panic!("unexpected message type"),
    }
    assert!(buf.is_empty());
}

#[test]
fn decode_selected_version_overflow() {
    let mut buf = BytesMut::new();
    let mut vi = VarInt;

    // Encode a version that does not fit into u32
    vi.encode((u32::MAX as u64) + 1, &mut buf).unwrap();
    vi.encode(0, &mut buf).unwrap(); // zero parameters

    match ServerSetup::decode(&mut buf) {
        Err(Error::VarIntRange) => {}
        r => panic!("unexpected result: {:?}", r),
    }
}
