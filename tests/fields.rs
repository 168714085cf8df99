use amqp_codec::error::{DomainError, FrameDecodeErr};
use amqp_codec::field::{parse_field_array, parse_field_name, parse_field_table, parse_field_value, Decimal, FieldTable, FieldValue};

fn value(bytes: &[u8]) -> FieldValue {
    let (rest, v) = parse_field_value(bytes).unwrap();
    assert!(rest.is_empty());
    v
}

#[test]
fn field_table_with_long_string() {
    // `host` -> long string `localhost`: 19 octets inside the window.
    let bytes = [
        0x00u8, 0x00, 0x00, 0x13, 0x04, 0x68, 0x6F, 0x73, 0x74, 0x53, 0x00, 0x00, 0x00, 0x09, 0x6C, 0x6F,
        0x63, 0x61, 0x6C, 0x68, 0x6F, 0x73, 0x74,
    ];
    let (rest, table) = parse_field_table(&bytes).unwrap();
    assert!(rest.is_empty());
    assert_eq!(
        table,
        FieldTable { entries: vec![(b"host".to_vec(), FieldValue::LongStr(b"localhost".to_vec()))] }
    );
}

#[test]
fn field_table_window_one_short_is_fatal() {
    // The same entry announced with a window of 18 octets: the long string
    // runs one octet past the window.
    let bytes = [
        0x00u8, 0x00, 0x00, 0x12, 0x04, 0x68, 0x6F, 0x73, 0x74, 0x53, 0x00, 0x00, 0x00, 0x09, 0x6C, 0x6F,
        0x63, 0x61, 0x6C, 0x68, 0x6F, 0x73, 0x74,
    ];
    assert_eq!(parse_field_table(&bytes).unwrap_err(), FrameDecodeErr::ParseFrameFailed);
}

#[test]
fn field_table_keeps_order_and_tail() {
    let bytes = [0x00u8, 0x00, 0x00, 0x07, 0x01, 0x62, 0x74, 0x01, 0x01, 0x61, 0x56, 0xAA];
    let (rest, table) = parse_field_table(&bytes[..11]).unwrap();
    assert_eq!(rest, &[] as &[u8]);
    assert_eq!(
        table.entries,
        vec![(b"b".to_vec(), FieldValue::Boolean(true)), (b"a".to_vec(), FieldValue::Void)]
    );
    let (rest, _) = parse_field_table(&bytes).unwrap();
    assert_eq!(rest, &[0xAAu8][..]);
}

#[test]
fn empty_field_table() {
    let (rest, table) = parse_field_table(&[0u8, 0, 0, 0, 7]).unwrap();
    assert_eq!(rest, &[7u8][..]);
    assert!(table.entries.is_empty());
}

#[test]
fn value_past_table_window_is_fatal() {
    // The window holds 5 octets but the long string inside needs 9.
    let bytes = [0x00u8, 0x00, 0x00, 0x05, 0x01, 0x6B, 0x53, 0x00, 0x00, 0x00, 0x01, 0x78, 0x00];
    assert_eq!(parse_field_table(&bytes).unwrap_err(), FrameDecodeErr::ParseFrameFailed);
}

#[test]
fn leftover_octets_in_table_window_are_fatal() {
    // One complete entry, then a single stray octet inside the window.
    let bytes = [0x00u8, 0x00, 0x00, 0x04, 0x01, 0x6B, 0x56, 0x01];
    assert_eq!(parse_field_table(&bytes).unwrap_err(), FrameDecodeErr::ParseFrameFailed);
}

#[test]
fn table_window_longer_than_input() {
    assert_eq!(parse_field_table(&[0u8, 0, 0, 9, 1]).unwrap_err(), FrameDecodeErr::ParseFrameFailed);
}

#[test]
fn invalid_field_name() {
    assert_eq!(
        parse_field_name(&[0u8, 0x56]).unwrap_err(),
        FrameDecodeErr::Amqp(DomainError::InvalidFieldName)
    );
    let table = [0x00u8, 0x00, 0x00, 0x02, 0x00, 0x56];
    assert_eq!(
        parse_field_table(&table).unwrap_err(),
        FrameDecodeErr::Amqp(DomainError::InvalidFieldName)
    );
    let mut long = vec![129u8];
    long.extend(std::iter::repeat(0x61u8).take(129));
    assert_eq!(parse_field_name(&long).unwrap_err(), FrameDecodeErr::Amqp(DomainError::InvalidFieldName));
    let mut max = vec![128u8];
    max.extend(std::iter::repeat(0x61u8).take(128));
    let (_, name) = parse_field_name(&max).unwrap();
    assert_eq!(name.len(), 128);
}

#[test]
fn field_name_characters() {
    let (_, name) = parse_field_name(&[6, 0x24, 0x66, 0x6F, 0x6F, 0x5F, 0x31]).unwrap();
    assert_eq!(name, b"$foo_1".to_vec());
    assert_eq!(
        parse_field_name(&[4, 0x31, 0x61, 0x62, 0x63]).unwrap_err(),
        FrameDecodeErr::Amqp(DomainError::InvalidFieldName)
    );
    assert_eq!(
        parse_field_name(&[7, 0x78, 0x2D, 0x6D, 0x61, 0x74, 0x63, 0x68]).unwrap_err(),
        FrameDecodeErr::Amqp(DomainError::InvalidFieldName)
    );
    assert_eq!(parse_field_name(&[3, 0x61]).unwrap_err(), FrameDecodeErr::ParseFrameFailed);
}

#[test]
fn integer_values() {
    assert_eq!(value(&[0x62, 0xFF]), FieldValue::I8(-1));
    assert_eq!(value(&[0x42, 0xFF]), FieldValue::U8(255));
    assert_eq!(value(&[0x73, 0x80, 0x00]), FieldValue::I16(-32768));
    assert_eq!(value(&[0x75, 0x12, 0x34]), FieldValue::U16(0x1234));
    assert_eq!(value(&[0x49, 0xFF, 0xFF, 0xFF, 0xFE]), FieldValue::I32(-2));
    assert_eq!(value(&[0x69, 0x01, 0x02, 0x03, 0x04]), FieldValue::U32(0x01020304));
    assert_eq!(value(&[0x6C, 0xFF, 0xFF, 0xFF, 0xFF, 0xFF, 0xFF, 0xFF, 0xFD]), FieldValue::I64(-3));
    assert_eq!(
        value(&[0x4C, 0x01, 0x02, 0x03, 0x04, 0x05, 0x06, 0x07, 0x08]),
        FieldValue::U64(0x0102030405060708)
    );
    assert_eq!(value(&[0x54, 0, 0, 0, 0, 0x5F, 0x5E, 0x10, 0x00]), FieldValue::Timestamp(0x5F5E1000));
}

#[test]
fn boolean_values() {
    assert_eq!(value(&[0x74, 0x00]), FieldValue::Boolean(false));
    assert_eq!(value(&[0x74, 0x02]), FieldValue::Boolean(true));
}

#[test]
fn float_values_keep_their_bits() {
    let f = 1.5f32.to_bits().to_be_bytes();
    assert_eq!(value(&[0x66, f[0], f[1], f[2], f[3]]), FieldValue::F32(1.5f32.to_bits()));
    let d = (-2.25f64).to_bits().to_be_bytes();
    let mut bytes = vec![0x64];
    bytes.extend_from_slice(&d);
    assert_eq!(value(&bytes), FieldValue::F64((-2.25f64).to_bits()));
}

#[test]
fn decimal_and_strings() {
    assert_eq!(value(&[0x44, 0x02, 0x00, 0x00, 0x04, 0xD2]), FieldValue::Decimal(Decimal { scale: 2, value: 1234 }));
    assert_eq!(value(&[0x53, 0, 0, 0, 2, 0x68, 0x69]), FieldValue::LongStr(b"hi".to_vec()));
    assert_eq!(value(&[0x78, 0, 0, 0, 3, 1, 2, 3]), FieldValue::ByteArray(vec![1, 2, 3]));
    assert_eq!(value(&[0x56]), FieldValue::Void);
}

#[test]
fn nested_array_and_table() {
    let bytes = [
        0x41u8, 0x00, 0x00, 0x00, 0x0B, 0x42, 0x07, 0x46, 0x00, 0x00, 0x00, 0x04, 0x01, 0x78, 0x74, 0x01,
    ];
    assert_eq!(
        value(&bytes),
        FieldValue::FieldArray(vec![
            FieldValue::U8(7),
            FieldValue::FieldTable(FieldTable { entries: vec![(b"x".to_vec(), FieldValue::Boolean(true))] }),
        ])
    );
}

#[test]
fn field_array_window() {
    let (rest, values) = parse_field_array(&[0u8, 0, 0, 2, 0x56, 0x56, 0x01]).unwrap();
    assert_eq!(values, vec![FieldValue::Void, FieldValue::Void]);
    assert_eq!(rest, &[0x01u8][..]);
    assert_eq!(parse_field_array(&[0u8, 0, 0, 2, 0x42]).unwrap_err(), FrameDecodeErr::ParseFrameFailed);
    assert_eq!(parse_field_array(&[0u8, 0, 0, 1, 0x42, 0x01]).unwrap_err(), FrameDecodeErr::ParseFrameFailed);
}

#[test]
fn unknown_value_tag() {
    assert_eq!(parse_field_value(&[0x7A, 0x00]).unwrap_err(), FrameDecodeErr::ParseFrameFailed);
    assert_eq!(parse_field_value(&[]).unwrap_err(), FrameDecodeErr::ParseFrameFailed);
}
