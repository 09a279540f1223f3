//! The frames of the protocol, byte by byte.
use presence_for_plex::frame::{frame_json, frame_text, pack, read_body, unpack};

#[test]
fn pack_writes_both_fields_in_little_endian() {
    assert_eq!(
        pack(1, 0x0403_0201),
        vec![1, 0, 0, 0, 0x01, 0x02, 0x03, 0x04]
    );
    assert_eq!(pack(0, 0), vec![0; 8]);
    assert_eq!(
        pack(u32::MAX, 256),
        vec![0xff, 0xff, 0xff, 0xff, 0, 1, 0, 0]
    );
}

#[test]
fn unpack_reads_what_pack_wrote() {
    for &(opcode, len) in &[(0u32, 0u32), (1, 17), (2, 2), (u32::MAX, 0x8000_0001)] {
        assert_eq!(unpack(&pack(opcode, len)), Ok((opcode, len)));
    }
}

#[test]
fn unpack_passes_over_what_follows_the_header() {
    let mut bytes = pack(3, 99);
    bytes.extend_from_slice(&[7, 7, 7]);
    assert_eq!(unpack(&bytes), Ok((3, 99)));
}

#[test]
fn unpack_refuses_a_short_header() {
    assert_eq!(unpack(&[]), Err("Header too short".to_string()));
    assert_eq!(unpack(&[0; 7]), Err("Header too short".to_string()));
}

#[test]
fn packing_what_was_unpacked_gives_the_header_again() {
    let header = [9u8, 8, 7, 6, 5, 4, 3, 2];
    let (opcode, len) = unpack(&header).unwrap();
    assert_eq!(pack(opcode, len), header.to_vec());
}

#[test]
fn a_text_frame_counts_bytes_and_not_characters() {
    let frame = frame_text("·é", 1);
    assert_eq!(frame.header, vec![1, 0, 0, 0, 4, 0, 0, 0]);
    assert_eq!(frame.body, "·é".as_bytes().to_vec());
}

#[test]
fn a_json_frame_carries_the_compact_text() {
    let value = serde_json::Value::from("a\"b");
    let frame = frame_json(&value, 1);
    assert_eq!(frame.body, b"\"a\\\"b\"".to_vec());
    assert_eq!(frame.header, vec![1, 0, 0, 0, 6, 0, 0, 0]);
}

#[test]
fn the_text_of_an_empty_object_is_a_pair_of_braces() {
    let value = serde_json::Value::Object(serde_json::Map::new());
    assert_eq!(frame_json(&value, 2).body, b"{}".to_vec());
}

#[test]
fn a_body_is_read_as_json() {
    let value = read_body(b"{\"evt\":\"READY\",\"n\":[1,null,true]}").unwrap();
    assert_eq!(value["evt"], "READY");
    assert_eq!(value["n"][0], 1);
    assert!(value["n"][1].is_null());
}

#[test]
fn a_frame_is_read_back() {
    let mut object = serde_json::Map::new();
    object.insert("k".to_string(), serde_json::Value::from("S1 · E2"));
    let value = serde_json::Value::Object(object);
    let frame = frame_json(&value, 1);
    let (opcode, len) = unpack(&frame.header).unwrap();
    assert_eq!(opcode, 1);
    assert_eq!(len as usize, frame.body.len());
    assert_eq!(read_body(&frame.body).unwrap(), value);
}

fn nested(depth: usize) -> serde_json::Value {
    let mut value = serde_json::Value::Array(Vec::new());
    for _ in 1..depth {
        value = serde_json::Value::Array(vec![value]);
    }
    value
}

#[test]
fn frames_in_a_row_are_read_back_in_order() {
    let mut object = serde_json::Map::new();
    object.insert("\u{1}\n\"·".to_string(), serde_json::Value::from(i64::MIN));
    object.insert("big".to_string(), serde_json::Value::from(u64::MAX));
    object.insert("no".to_string(), serde_json::Value::from(false));
    object.insert("nil".to_string(), serde_json::Value::Null);
    let values = [
        serde_json::Value::Object(object),
        serde_json::Value::from("/\\\u{7f}"),
        nested(127),
    ];
    let mut stream = Vec::new();
    for (i, value) in values.iter().enumerate() {
        let frame = frame_json(value, i as u32);
        stream.extend_from_slice(&frame.header);
        stream.extend_from_slice(&frame.body);
    }
    stream.extend_from_slice(b"rest");
    let mut at = 0;
    for (i, value) in values.iter().enumerate() {
        let (opcode, len) = unpack(&stream[at..]).unwrap();
        assert_eq!(opcode, i as u32);
        at += 8;
        let body = &stream[at..at + len as usize];
        assert_eq!(read_body(body).as_ref(), Ok(value));
        at += len as usize;
    }
    assert_eq!(&stream[at..], b"rest");
}

#[test]
fn a_value_that_is_nested_too_deep_is_not_read_back() {
    let message = read_body(&frame_json(&nested(128), 1).body).unwrap_err();
    assert!(message.starts_with("JSON error: recursion limit exceeded"));
}

#[test]
fn a_body_that_is_not_utf8_is_an_error() {
    assert_eq!(
        read_body(&[0xff]).unwrap_err(),
        "UTF-8 error: invalid utf-8 sequence of 1 bytes from index 0"
    );
}

#[test]
fn a_body_that_is_not_json_is_an_error() {
    assert_eq!(
        read_body(b"").unwrap_err(),
        "JSON error: EOF while parsing a value at line 1 column 0"
    );
    assert!(read_body(b"{\"a\":}").unwrap_err().starts_with("JSON error: "));
}
