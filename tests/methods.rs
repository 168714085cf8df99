use amqp_codec::basic::{parse_basic_ack, parse_basic_consume, parse_basic_nack, parse_basic_publish};
use amqp_codec::channel::parse_channel_flow;
use amqp_codec::connection::{parse_connection_close, parse_connection_open, parse_connection_start};
use amqp_codec::content::{parse_content_header, BasicProperties, ContentHeader};
use amqp_codec::error::FrameDecodeErr;
use amqp_codec::exchange::parse_exchange_delete;
use amqp_codec::field::{FieldTable, FieldValue};
use amqp_codec::method::{
    class_from_id, get_method_type, parse_arguments, Arguments, BasicMethod, Class, ConfirmMethod, Method,
    QueueMethod, TxMethod,
};

#[test]
fn basic_publish_arguments() {
    let args = parse_basic_publish(&[0x00, 0x00, 0x02, 0x65, 0x78, 0x00, 0x01]).unwrap();
    assert_eq!(
        args,
        Arguments::BasicPublish {
            ticket: 0,
            exchange: b"ex".to_vec(),
            routing_key: Vec::new(),
            mandatory: true,
            immediate: false,
        }
    );
}

#[test]
fn unused_flag_bits_are_ignored() {
    let low = parse_basic_publish(&[0x00, 0x00, 0x02, 0x65, 0x78, 0x00, 0x01]).unwrap();
    let high = parse_basic_publish(&[0x00, 0x00, 0x02, 0x65, 0x78, 0x00, 0xFD]).unwrap();
    assert_eq!(low, high);
    let ack = parse_basic_ack(&[0, 0, 0, 0, 0, 0, 0, 9, 0xFE]).unwrap();
    assert_eq!(ack, Arguments::BasicAck { delivery_tag: 9, multiple: false });
}

#[test]
fn second_flag_bit_is_read() {
    let nack = parse_basic_nack(&[0, 0, 0, 0, 0, 0, 1, 0, 0x02]).unwrap();
    assert_eq!(nack, Arguments::BasicNack { delivery_tag: 256, multiple: false, requeue: true });
}

#[test]
fn truncated_publish_is_fatal() {
    assert_eq!(parse_basic_publish(&[0x00, 0x00, 0x05, 0x65]).unwrap_err(), FrameDecodeErr::ParseFrameFailed);
}

#[test]
fn basic_consume_with_table() {
    let bytes = [
        0x00u8, 0x01, 0x01, 0x71, 0x01, 0x74, 0x0A, 0x00, 0x00, 0x00, 0x04, 0x01, 0x6B, 0x42, 0x05,
    ];
    let args = parse_basic_consume(&bytes).unwrap();
    assert_eq!(
        args,
        Arguments::BasicConsume {
            ticket: 1,
            queue: b"q".to_vec(),
            consumer_tag: b"t".to_vec(),
            no_local: false,
            no_ack: true,
            exclusive: false,
            no_wait: true,
            arguments: FieldTable { entries: vec![(b"k".to_vec(), FieldValue::U8(5))] },
        }
    );
}

#[test]
fn connection_start_arguments() {
    let bytes = [
        0x00u8, 0x09, 0x00, 0x00, 0x00, 0x00, 0x00, 0x00, 0x00, 0x05, 0x50, 0x4C, 0x41, 0x49, 0x4E, 0x00,
        0x00, 0x00, 0x05, 0x65, 0x6E, 0x5F, 0x55, 0x53,
    ];
    let args = parse_connection_start(&bytes).unwrap();
    assert_eq!(
        args,
        Arguments::ConnectionStart {
            version_major: 0,
            version_minor: 9,
            server_properties: FieldTable { entries: Vec::new() },
            mechanisms: b"PLAIN".to_vec(),
            locales: b"en_US".to_vec(),
        }
    );
}

#[test]
fn connection_open_insist_bit() {
    let args = parse_connection_open(&[0x01, 0x2F, 0x00, 0x03]).unwrap();
    assert_eq!(args, Arguments::ConnectionOpen { vhost: b"/".to_vec(), capabilities: Vec::new(), insist: true });
    let args = parse_connection_open(&[0x01, 0x2F, 0x00, 0x02]).unwrap();
    assert_eq!(args, Arguments::ConnectionOpen { vhost: b"/".to_vec(), capabilities: Vec::new(), insist: false });
}

#[test]
fn connection_close_keeps_raw_ids() {
    let args = parse_connection_close(&[0x01, 0x40, 0x02, 0x6E, 0x6F, 0x00, 0x00, 0x00, 0x00]).unwrap();
    assert_eq!(
        args,
        Arguments::ConnectionClose { reply_code: 320, reply_text: b"no".to_vec(), class_id: 0, method_id: 0 }
    );
}

#[test]
fn channel_flow_whole_octet_boolean() {
    assert_eq!(parse_channel_flow(&[0x02]).unwrap(), Arguments::ChannelFlow { active: true });
    assert_eq!(parse_channel_flow(&[0x00]).unwrap(), Arguments::ChannelFlow { active: false });
}

#[test]
fn exchange_delete_reads_name() {
    let args = parse_exchange_delete(&[0x00, 0x00, 0x01, 0x78, 0x03]).unwrap();
    assert_eq!(
        args,
        Arguments::ExchangeDelete { ticket: 0, exchange: b"x".to_vec(), if_unused: true, no_wait: true }
    );
}

#[test]
fn dispatch_by_method() {
    let method = get_method_type(Class::Queue, 41).unwrap();
    assert_eq!(method, Method::Queue(QueueMethod::DeleteOk));
    assert_eq!(parse_arguments(method, &[0, 0, 0, 7]).unwrap(), Arguments::QueueDeleteOk { message_count: 7 });
    let tx = get_method_type(Class::Tx, 31).unwrap();
    assert_eq!(tx, Method::Tx(TxMethod::RollbackOk));
    assert_eq!(parse_arguments(tx, &[]).unwrap(), Arguments::TxRollbackOk);
    let confirm = get_method_type(Class::Confirm, 10).unwrap();
    assert_eq!(confirm, Method::Confirm(ConfirmMethod::Select));
    assert_eq!(parse_arguments(confirm, &[0x01]).unwrap(), Arguments::ConfirmSelect { no_wait: true });
    assert_eq!(get_method_type(Class::Basic, 120).unwrap(), Method::Basic(BasicMethod::Nack));
    assert_eq!(get_method_type(Class::Basic, 121), Err(FrameDecodeErr::UnknownMethodType));
}

#[test]
fn class_ids() {
    assert_eq!(class_from_id(10), Some(Class::Connection));
    assert_eq!(class_from_id(85), Some(Class::Confirm));
    assert_eq!(class_from_id(90), Some(Class::Tx));
    assert_eq!(class_from_id(11), None);
}

fn no_properties() -> BasicProperties<Vec<u8>, FieldTable> {
    BasicProperties {
        content_type: None,
        content_encoding: None,
        headers: None,
        delivery_mode: None,
        priority: None,
        correlation_id: None,
        reply_to: None,
        expiration: None,
        message_id: None,
        timestamp: None,
        message_type: None,
        user_id: None,
        app_id: None,
        cluster_id: None,
    }
}

#[test]
fn content_header_with_properties() {
    let bytes = [
        0x00u8, 0x3C, 0x00, 0x00, 0, 0, 0, 0, 0, 0, 0, 5, 0x48, 0x00, 0x04, 0x74, 0x65, 0x78, 0x74, 0x02,
    ];
    let header = parse_content_header(&bytes).unwrap();
    let mut expected = no_properties();
    expected.content_type = Some(b"text".to_vec());
    expected.delivery_mode = Some(2);
    assert_eq!(header, ContentHeader { class: Class::Basic, body_size: 5, properties: expected });
}

#[test]
fn content_header_continuation_word() {
    let bytes = [0x00u8, 0x3C, 0x00, 0x00, 0, 0, 0, 0, 0, 0, 0, 0, 0x80, 0x00, 0x00, 0x00];
    let header = parse_content_header(&bytes).unwrap();
    assert_eq!(header, ContentHeader { class: Class::Basic, body_size: 0, properties: no_properties() });
    let bad = [0x00u8, 0x3C, 0x00, 0x00, 0, 0, 0, 0, 0, 0, 0, 0, 0x80, 0x00, 0x00, 0x01];
    assert_eq!(parse_content_header(&bad).unwrap_err(), FrameDecodeErr::ParseFrameFailed);
}

#[test]
fn content_header_errors() {
    let short_unknown = [0x00u8, 0x3D, 0x00, 0x00];
    assert_eq!(parse_content_header(&short_unknown).unwrap_err(), FrameDecodeErr::ParseFrameFailed);
    let unknown = [0x00u8, 0x3D, 0x00, 0x00, 0, 0, 0, 0, 0, 0, 0, 0, 0x00, 0x00];
    assert_eq!(parse_content_header(&unknown).unwrap_err(), FrameDecodeErr::UnknownClassType);
    let weight = [0x00u8, 0x3C, 0x00, 0x01, 0, 0, 0, 0, 0, 0, 0, 0, 0x00, 0x00];
    assert_eq!(parse_content_header(&weight).unwrap_err(), FrameDecodeErr::ParseFrameFailed);
    let undeclared = [0x00u8, 0x3C, 0x00, 0x00, 0, 0, 0, 0, 0, 0, 0, 0, 0x00, 0x01];
    assert_eq!(parse_content_header(&undeclared).unwrap_err(), FrameDecodeErr::ParseFrameFailed);
    let channel_props = [0x00u8, 0x14, 0x00, 0x00, 0, 0, 0, 0, 0, 0, 0, 0, 0x40, 0x00];
    assert_eq!(parse_content_header(&channel_props).unwrap_err(), FrameDecodeErr::ParseFrameFailed);
}
