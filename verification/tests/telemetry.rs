use byteorder::{ByteOrder, LittleEndian};
use dma_gpio::server::SocketTelemetryServerBuilder;
use dma_gpio::telemetry::{
    u64_to_string, FieldType, FieldTypeUnsignedByte, Storable, TelemetryStreamDefinition,
    TelemetryStreamField,
};

#[test]
fn decimal_rendering() {
    assert_eq!(u64_to_string(0), "0");
    assert_eq!(u64_to_string(7), "7");
    assert_eq!(u64_to_string(10), "10");
    assert_eq!(u64_to_string(305), "305");
    assert_eq!(u64_to_string(18446744073709551615), "18446744073709551615");
}

#[test]
fn integers_store_little_endian() {
    let mut buf: Vec<u8> = Vec::new();
    0x12u8.store(&mut buf);
    (-2i8).store(&mut buf);
    0x1234u16.store(&mut buf);
    (-2i16).store(&mut buf);
    0x12345678u32.store(&mut buf);
    (-2i32).store(&mut buf);
    assert_eq!(
        buf,
        vec![
            0x12, 0xfe, 0x34, 0x12, 0xfe, 0xff, 0x78, 0x56, 0x34, 0x12, 0xfe, 0xff, 0xff, 0xff
        ]
    );
}

#[test]
fn long_and_bytes_store() {
    let mut buf: Vec<u8> = Vec::new();
    0x0102030405060708u64.store(&mut buf);
    (-1i64).store(&mut buf);
    vec![9u8, 8, 7].store(&mut buf);
    let mut expected = vec![8u8, 7, 6, 5, 4, 3, 2, 1];
    expected.extend_from_slice(&[0xff; 8]);
    expected.extend_from_slice(&[9, 8, 7]);
    assert_eq!(buf, expected);
}

#[test]
fn stores_agree_with_byteorder() {
    let mut ours: Vec<u8> = Vec::new();
    0xbeefu16.store(&mut ours);
    0xdeadbeefu32.store(&mut ours);
    0xfeedfacecafebeefu64.store(&mut ours);
    let mut reference = vec![0u8; 14];
    LittleEndian::write_u16(&mut reference[0..2], 0xbeef);
    LittleEndian::write_u32(&mut reference[2..6], 0xdeadbeef);
    LittleEndian::write_u64(&mut reference[6..14], 0xfeedfacecafebeef);
    assert_eq!(ours, reference);
}

#[test]
fn field_constructors() {
    let f = TelemetryStreamDefinition::unsigned_byte_field("status");
    assert_eq!(f.name(), "status");
    assert_eq!(f.size(), 1);
    assert_eq!(f.to_json(), "\"type\" : \"b\", \"signed\" : \"false\"");

    let f = TelemetryStreamDefinition::signed_word_field("gdx");
    assert_eq!(f.size(), 2);
    assert_eq!(f.to_json(), "\"type\" : \"w\", \"signed\" : \"true\"");

    let f = TelemetryStreamDefinition::unsigned_integer_field("n");
    assert_eq!(f.size(), 4);
    assert_eq!(f.to_json(), "\"type\" : \"i\", \"signed\" : \"false\"");

    let f = TelemetryStreamDefinition::signed_long_field("t");
    assert_eq!(f.size(), 8);
    assert_eq!(f.to_json(), "\"type\" : \"l\", \"signed\" : \"true\"");

    let f = TelemetryStreamDefinition::double_field("gx");
    assert_eq!(f.size(), 8);
    assert_eq!(f.to_json(), "\"type\" : \"d\"");

    let f = TelemetryStreamDefinition::float_field("gy");
    assert_eq!(f.size(), 4);
    assert_eq!(f.to_json(), "\"type\" : \"f\"");

    let f = TelemetryStreamDefinition::string_field("label", 300);
    assert_eq!(f.size(), 300);
    assert_eq!(f.to_json(), "\"type\" : \"s\", \"size\" : \"300\"");

    let f = TelemetryStreamDefinition::bytes_field("raw", 16);
    assert_eq!(f.size(), 16);
    assert_eq!(f.to_json(), "\"type\" : \"a\", \"size\" : \"16\"");
}

#[test]
fn unsigned_byte_unit_type() {
    let t = FieldTypeUnsignedByte;
    assert_eq!(t.size(), 1);
    assert_eq!(t.type_shortcode(), "b");
    assert_eq!(t.common_definition_to_json(), "\"type\" : \"b\"");
    assert_eq!(
        t.definition_to_json(1),
        "\"type\" : \"b\", \"signed\" : \"false\""
    );
}

#[test]
fn small_stream_layout() {
    let stream = TelemetryStreamDefinition::new(
        "s",
        1,
        vec![
            TelemetryStreamDefinition::signed_word_field("a"),
            TelemetryStreamDefinition::double_field("b"),
        ],
    );
    // 2 + 8 field bytes, plus the eight-byte record time.
    assert_eq!(stream.fixed_length, 18);
    assert_eq!(stream.header, vec![0, 1, 18]);
    assert_eq!(stream.size(), 21);
    assert_eq!(stream.name(), "s");
    assert_eq!(stream.fields().len(), 2);

    let mut buf = vec![0xaau8];
    stream.write_header(&mut buf);
    assert_eq!(buf, vec![0xaa, 0, 1, 18]);
}

#[test]
fn stream_json_description() {
    let stream = TelemetryStreamDefinition::new(
        "balance",
        1,
        vec![
            TelemetryStreamDefinition::signed_word_field("gdx"),
            TelemetryStreamDefinition::double_field("gx"),
        ],
    );
    assert_eq!(
        stream.to_json(),
        "{ \"id\" : 1, \"name\" : \"balance\", \"fields\" : { \
         \"gdx\" : { \"type\" : \"w\", \"signed\" : \"true\" }, \
         \"gx\" : { \"type\" : \"d\" } } }"
    );
}

#[test]
fn wide_stream_header() {
    // A stream id beyond one byte and a record beyond 255 bytes.
    let stream = TelemetryStreamDefinition::new(
        "wide",
        700,
        vec![TelemetryStreamDefinition::bytes_field("blob", 300)],
    );
    assert_eq!(stream.fixed_length, 308);
    // Shape byte 3: two-byte id, two-byte length; 700 = 0x02bc, 308 = 0x0134.
    assert_eq!(stream.header, vec![3, 0xbc, 0x02, 0x34, 0x01]);
}

#[test]
fn register_stream_records_the_description() {
    let mut builder = SocketTelemetryServerBuilder::new();
    assert_eq!(builder.stream_definitions.len(), 0);
    let stream = builder.register_stream(TelemetryStreamDefinition::new(
        "s",
        2,
        vec![TelemetryStreamDefinition::unsigned_byte_field("a")],
    ));
    assert_eq!(stream.name(), "s");
    assert_eq!(builder.stream_definitions.len(), 1);
    assert_eq!(
        builder.stream_definitions[0],
        stream.to_json().into_bytes()
    );
}

#[test]
fn empty_stream_still_carries_the_time_field() {
    let stream = TelemetryStreamDefinition::new("t", 3, vec![]);
    assert_eq!(stream.fixed_length, 8);
    assert_eq!(stream.header, vec![0, 3, 8]);
    assert_eq!(stream.to_json(), "{ \"id\" : 3, \"name\" : \"t\", \"fields\" : {  } }");
}
