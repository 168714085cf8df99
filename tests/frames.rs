use amqp_codec::error::FrameDecodeErr;
use amqp_codec::frame_codec::{DecodedFrame, FrameCodec};
use amqp_codec::method::{Arguments, Class, ConnectionMethod, Method};
use amqp_codec::parse::{parse_amqp_protocal_header, parse_frame, FrameType, Payload, ProtocolHeader};
use bytes::BytesMut;

const HEADER: [u8; 8] = [0x41, 0x4d, 0x51, 0x50, 0x00, 0x00, 0x09, 0x01];

const TUNE_FRAME: [u8; 20] = [
    0x01, 0x00, 0x00, 0x00, 0x00, 0x00, 0x0C, 0x00, 0x0A, 0x00, 0x1E, 0x07, 0xFF, 0x00, 0x02, 0x00,
    0x00, 0x00, 0x3C, 0xCE,
];

fn ready_codec() -> FrameCodec {
    let mut codec = FrameCodec::new();
    let mut buf = BytesMut::from(&HEADER[..]);
    match codec.decode(&mut buf) {
        Ok(Some(DecodedFrame::ProtocolHeader(_))) => {}
        other => panic!("header not decoded: {:?}", other),
    }
    codec
}

fn assert_tune(item: DecodedFrame<Vec<u8>, amqp_codec::field::FieldTable>) {
    match item {
        DecodedFrame::AmqpFrame(frame) => {
            assert_eq!(frame.frame_type, FrameType::Method);
            assert_eq!(frame.channel, 0);
            assert_eq!(frame.length, 12);
            match frame.payload {
                Payload::Method { class, method, args } => {
                    assert_eq!(class, Class::Connection);
                    assert_eq!(method, Method::Connection(ConnectionMethod::Tune));
                    assert_eq!(
                        args,
                        Arguments::ConnectionTune { channel_max: 2047, frame_max: 131072, heartbeat: 60 }
                    );
                }
                other => panic!("not a method payload: {:?}", other),
            }
        }
        other => panic!("not a frame: {:?}", other),
    }
}

#[test]
fn test_protocol_header() {
    let header = [0x41u8, 0x4d, 0x51, 0x50, 0x00, 0x00, 0x09, 0x01];
    let protocol_header = parse_amqp_protocal_header(&header).unwrap();
    assert_eq!(protocol_header.major_version(), 0x9u8);
}

#[test]
fn protocol_header_fields() {
    let mut codec = FrameCodec::new();
    let mut buf = BytesMut::from(&HEADER[..]);
    let item = codec.decode(&mut buf).unwrap().unwrap();
    assert_eq!(
        item,
        DecodedFrame::ProtocolHeader(ProtocolHeader { major_id: 0, minor_id: 0, major_version: 9, minor_version: 1 })
    );
    assert_eq!(buf.len(), 0);
    assert!(codec.header_received);
}

#[test]
fn protocol_header_short_is_incomplete() {
    let mut codec = FrameCodec::new();
    let mut buf = BytesMut::from(&HEADER[..7]);
    assert_eq!(codec.decode(&mut buf), Ok(None));
    assert_eq!(&buf[..], &HEADER[..7]);
    assert!(!codec.header_received);
    assert_eq!(parse_amqp_protocal_header(&HEADER[..7]), Err(FrameDecodeErr::Incomplete));
}

#[test]
fn protocol_header_bad_tag() {
    let bytes = [0x41u8, 0x4d, 0x51, 0x58, 0x00, 0x00, 0x09, 0x01];
    assert_eq!(parse_amqp_protocal_header(&bytes), Err(FrameDecodeErr::ParseAmqpHeaderFailed));
    let mut codec = FrameCodec::new();
    let mut buf = BytesMut::from(&bytes[..]);
    assert_eq!(codec.decode(&mut buf), Err(FrameDecodeErr::ParseAmqpHeaderFailed));
}

#[test]
fn heartbeat_frame() {
    let mut codec = ready_codec();
    let mut buf = BytesMut::from(&[0x08u8, 0x00, 0x00, 0x00, 0x00, 0x00, 0x00, 0xCE][..]);
    match codec.decode(&mut buf).unwrap().unwrap() {
        DecodedFrame::AmqpFrame(frame) => {
            assert_eq!(frame.frame_type, FrameType::Heartbeat);
            assert_eq!(frame.channel, 0);
            assert_eq!(frame.length, 0);
            assert_eq!(frame.payload, Payload::Heartbeat);
        }
        other => panic!("not a frame: {:?}", other),
    }
    assert_eq!(buf.len(), 0);
}

#[test]
fn heartbeat_with_payload_is_fatal() {
    let mut codec = ready_codec();
    let mut buf = BytesMut::from(&[0x08u8, 0x00, 0x00, 0x00, 0x00, 0x00, 0x01, 0x00, 0xCE][..]);
    assert_eq!(codec.decode(&mut buf), Err(FrameDecodeErr::ParseFrameFailed));
}

#[test]
fn connection_tune_frame() {
    let mut codec = ready_codec();
    let mut buf = BytesMut::from(&TUNE_FRAME[..]);
    let item = codec.decode(&mut buf).unwrap().unwrap();
    assert_tune(item);
    assert_eq!(buf.len(), 0);
}

#[test]
fn frame_leaves_exactly_the_tail() {
    let mut codec = ready_codec();
    let mut bytes = TUNE_FRAME.to_vec();
    bytes.extend_from_slice(&[0x08, 0x00, 0x00]);
    let mut buf = BytesMut::from(&bytes[..]);
    let item = codec.decode(&mut buf).unwrap().unwrap();
    assert_tune(item);
    assert_eq!(&buf[..], &[0x08u8, 0x00, 0x00][..]);
    let (consumed, _) = parse_frame(&bytes).unwrap();
    assert_eq!(consumed, 20);
}

#[test]
fn fragmented_frame() {
    let mut codec = ready_codec();
    let mut buf = BytesMut::new();
    let mut incomplete = 0;
    for (i, b) in TUNE_FRAME.iter().enumerate() {
        buf.extend_from_slice(&[*b]);
        match codec.decode(&mut buf).unwrap() {
            None => {
                incomplete += 1;
                assert_eq!(buf.len(), i + 1);
            }
            Some(item) => {
                assert_eq!(i, 19);
                assert_tune(item);
            }
        }
    }
    assert_eq!(incomplete, 19);
    assert_eq!(buf.len(), 0);
}

#[test]
fn bad_end_marker_is_fatal() {
    let mut codec = ready_codec();
    let mut bytes = TUNE_FRAME.to_vec();
    bytes[19] = 0xCD;
    let mut buf = BytesMut::from(&bytes[..]);
    assert_eq!(codec.decode(&mut buf), Err(FrameDecodeErr::ParseFrameFailed));
}

#[test]
fn unknown_frame_type() {
    let bytes = [0x09u8, 0x00, 0x00, 0x00, 0x00, 0x00, 0x00, 0xCE];
    assert!(matches!(parse_frame(&bytes), Err(FrameDecodeErr::UnknowFrameType)));
}

#[test]
fn unknown_class_and_method() {
    let class = [0x01u8, 0x00, 0x01, 0x00, 0x00, 0x00, 0x04, 0x00, 0x63, 0x00, 0x0A, 0xCE];
    assert!(matches!(parse_frame(&class), Err(FrameDecodeErr::UnknownClassType)));
    let method = [0x01u8, 0x00, 0x01, 0x00, 0x00, 0x00, 0x04, 0x00, 0x0A, 0x00, 0x63, 0xCE];
    assert!(matches!(parse_frame(&method), Err(FrameDecodeErr::UnknownMethodType)));
}

#[test]
fn truncated_arguments_are_fatal() {
    // Connection.Tune whose payload stops after the channel-max field.
    let bytes = [0x01u8, 0x00, 0x00, 0x00, 0x00, 0x00, 0x06, 0x00, 0x0A, 0x00, 0x1E, 0x07, 0xFF, 0xCE];
    assert!(matches!(parse_frame(&bytes), Err(FrameDecodeErr::ParseFrameFailed)));
}

#[test]
fn short_frame_is_incomplete() {
    assert!(matches!(parse_frame(&TUNE_FRAME[..6]), Err(FrameDecodeErr::Incomplete)));
    assert!(matches!(parse_frame(&TUNE_FRAME[..19]), Err(FrameDecodeErr::Incomplete)));
}

#[test]
fn content_body_frame() {
    let bytes = [0x03u8, 0x00, 0x05, 0x00, 0x00, 0x00, 0x03, 0x61, 0x62, 0x63, 0xCE];
    let (consumed, frame) = parse_frame(&bytes).unwrap();
    assert_eq!(consumed, 11);
    assert_eq!(frame.frame_type, FrameType::ContentBody);
    assert_eq!(frame.channel, 5);
    assert_eq!(frame.length, 3);
    assert_eq!(frame.payload, Payload::ContentBody(b"abc".to_vec()));
}

#[test]
fn empty_argument_method_accepts_zero_bytes() {
    // Channel.CloseOk (class 20, method 41) with no argument octets.
    let bytes = [0x01u8, 0x00, 0x01, 0x00, 0x00, 0x00, 0x04, 0x00, 0x14, 0x00, 0x29, 0xCE];
    let (consumed, frame) = parse_frame(&bytes).unwrap();
    assert_eq!(consumed, 12);
    match frame.payload {
        Payload::Method { args, .. } => assert_eq!(args, Arguments::ChannelCloseOk),
        other => panic!("not a method payload: {:?}", other),
    }
}

#[test]
fn error_descriptions() {
    assert_eq!(FrameDecodeErr::Incomplete.describe(), "Incomplete");
    assert_eq!(FrameDecodeErr::ParseFrameFailed.describe(), "parse frame failed");
}

#[test]
fn content_header_frame() {
    let payload = [
        0x00u8, 0x3C, 0x00, 0x00, 0, 0, 0, 0, 0, 0, 0, 5, 0x40, 0x00, 0x04, 0x74, 0x65, 0x78, 0x74,
    ];
    let mut bytes = vec![0x02u8, 0x00, 0x01, 0x00, 0x00, 0x00, payload.len() as u8];
    bytes.extend_from_slice(&payload);
    bytes.push(0xCE);
    let (consumed, frame) = parse_frame(&bytes).unwrap();
    assert_eq!(consumed, bytes.len());
    assert_eq!(frame.frame_type, FrameType::ContentHeader);
    assert_eq!(frame.channel, 1);
    match frame.payload {
        Payload::ContentHeader(h) => {
            assert_eq!(h.class, Class::Basic);
            assert_eq!(h.body_size, 5);
            assert_eq!(h.properties.content_type, Some(b"text".to_vec()));
            assert_eq!(h.properties.delivery_mode, None);
        }
        other => panic!("not a content header: {:?}", other),
    }
}

#[test]
fn frames_in_sequence() {
    let mut codec = ready_codec();
    let mut bytes = TUNE_FRAME.to_vec();
    bytes.extend_from_slice(&[0x08, 0x00, 0x00, 0x00, 0x00, 0x00, 0x00, 0xCE]);
    let mut buf = BytesMut::from(&bytes[..]);
    assert_tune(codec.decode(&mut buf).unwrap().unwrap());
    assert_eq!(buf.len(), 8);
    match codec.decode(&mut buf).unwrap().unwrap() {
        DecodedFrame::AmqpFrame(frame) => assert_eq!(frame.payload, Payload::Heartbeat),
        other => panic!("not a frame: {:?}", other),
    }
    assert_eq!(buf.len(), 0);
    assert_eq!(codec.decode(&mut buf), Ok(None));
}

#[test]
fn short_method_payload_is_parse_failure() {
    // Payload `00 00`: the method id is missing, so the frame is malformed
    // whatever the class id says.
    let bytes = [0x01u8, 0x00, 0x00, 0x00, 0x00, 0x00, 0x02, 0x00, 0x00, 0xCE];
    assert!(matches!(parse_frame(&bytes), Err(FrameDecodeErr::ParseFrameFailed)));
    let three = [0x01u8, 0x00, 0x00, 0x00, 0x00, 0x00, 0x03, 0x00, 0x63, 0x00, 0xCE];
    assert!(matches!(parse_frame(&three), Err(FrameDecodeErr::ParseFrameFailed)));
}

#[test]
fn all_error_descriptions() {
    assert_eq!(FrameDecodeErr::UnknowFrameType.describe(), "unknow frame type");
    assert_eq!(FrameDecodeErr::UnknownClassType.describe(), "unknown class type");
    assert_eq!(FrameDecodeErr::UnknownMethodType.describe(), "unknown method type");
    assert_eq!(FrameDecodeErr::ParseAmqpHeaderFailed.describe(), "parse Amqp header failed");
    assert_eq!(
        FrameDecodeErr::Amqp(amqp_codec::error::DomainError::InvalidFieldName).describe(),
        "amqp error: invalid field name"
    );
}
