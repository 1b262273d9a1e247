//! End-to-end scenarios driven through the wire model: each field-level
//! round trip becomes an encode to a wire value and a decode from the
//! matching source form.

use human_bytes::base64;
use human_bytes::decode_fixed;
use human_bytes::decode_option_fixed;
use human_bytes::decode_option_vec;
use human_bytes::decode_slice;
use human_bytes::decode_strong_borrowed;
use human_bytes::decode_vec;
use human_bytes::serialize;
use human_bytes::serialize_option;
use human_bytes::deserialize;
use human_bytes::BinInput;
use human_bytes::BoxedBytes;
use human_bytes::ByteBuf;
use human_bytes::Bytes;
use human_bytes::CowBytes;
use human_bytes::OptWire;
use human_bytes::Serialize;
use human_bytes::TextCodec;
use human_bytes::WireOutput;

fn text_of(w: WireOutput) -> String {
    match w {
        WireOutput::Text(s) => s,
        WireOutput::Raw(_) => panic!("expected a text wire value"),
    }
}

fn raw_of(w: WireOutput) -> Vec<u8> {
    match w {
        WireOutput::Raw(v) => v,
        WireOutput::Text(_) => panic!("expected a raw wire value"),
    }
}

#[test]
fn it_works_with_serde_json() {
    let data: Vec<u8> = vec![0x01, 0x02, 0x03];
    let serialized = text_of(serialize(data.as_slice(), true));
    assert_eq!(serialized, "010203");

    let deserialized = deserialize(BinInput::OwnedStr(serialized), true).unwrap();
    assert_eq!(deserialized, vec![0x01, 0x02, 0x03]);
}

#[test]
fn it_works_with_binary_format() {
    let data: Vec<u8> = vec![0x01, 0x02, 0x03, 0x04, 0x05];
    let serialized = raw_of(serialize(data.as_slice(), false));
    assert_eq!(serialized, vec![1u8, 2, 3, 4, 5]);

    let deserialized = deserialize(BinInput::Owned(serialized), false).unwrap();
    assert_eq!(deserialized, vec![0x01, 0x02, 0x03, 0x04, 0x05]);
}

#[test]
fn it_works_with_array() {
    let data: [u8; 3] = [0x01, 0x02, 0x03];
    let serialized = text_of(serialize(data.as_slice(), true));
    assert_eq!(serialized, "010203");

    let deserialized = decode_fixed(TextCodec::Hex, BinInput::OwnedStr(serialized), true, 3)
        .unwrap();
    assert_eq!(deserialized, vec![0x01, 0x02, 0x03]);
}

const DOTS: [u8; 3] = [0x2e, 0x2e, 0x2e];

#[test]
fn test_compact() {
    // Every shape, binary target: the wire value is the raw bytes and
    // each shape's decode restores them.
    let c = TextCodec::Hex;

    // slice / borrowed array
    let raw = raw_of(DOTS.as_slice().to_vec().serialize(c, false));
    assert_eq!(raw, DOTS.to_vec());
    let back = decode_slice(BinInput::Borrowed(&raw), false).unwrap();
    assert_eq!(back, DOTS.as_slice());

    // vec
    let back = decode_vec(c, BinInput::Owned(raw.clone()), false).unwrap();
    assert_eq!(back, DOTS.to_vec());

    // bytes (borrowed strong) / borrowed byte array
    let bytes = Bytes::new(&DOTS);
    let raw2 = raw_of(bytes.serialize(c, false));
    let back = decode_strong_borrowed(BinInput::Borrowed(&raw2), false).unwrap();
    assert_eq!(back.as_slice(), DOTS.as_slice());

    // byte array (fixed length)
    let back = decode_fixed(c, BinInput::Owned(raw.clone()), false, 3).unwrap();
    assert_eq!(back, DOTS.to_vec());

    // byte_buf
    let buf = ByteBuf::from_vec(DOTS.to_vec());
    let raw3 = raw_of(buf.serialize(c, false));
    assert_eq!(raw3, DOTS.to_vec());

    // cow_slice / cow_bytes
    let cow = CowBytes::Borrowed(&DOTS);
    let raw4 = raw_of(cow.serialize(c, false));
    assert_eq!(raw4, DOTS.to_vec());

    // boxed_slice / boxed_bytes
    let boxed = BoxedBytes::from_vec(DOTS.to_vec());
    let raw5 = raw_of(boxed.serialize(c, false));
    assert_eq!(raw5, DOTS.to_vec());

    // optional shapes, present and absent
    let opt: Option<Vec<u8>> = Some(DOTS.to_vec());
    match serialize_option(&opt, c, false) {
        OptWire::Present(w) => assert_eq!(raw_of(w), DOTS.to_vec()),
        OptWire::Missing => panic!("present value must produce the some marker"),
    }
    let back = decode_option_vec(c, Some(BinInput::Owned(raw.clone())), false).unwrap();
    assert_eq!(back, Some(DOTS.to_vec()));
    let back = decode_option_fixed(c, Some(BinInput::Owned(raw.clone())), false, 3).unwrap();
    assert_eq!(back, Some(DOTS.to_vec()));
}

#[test]
fn test_readable() {
    // Every shape, human-readable target: the wire value is the hex text
    // "2e2e2e" and each shape's decode restores the bytes.
    let c = TextCodec::Hex;

    let text = text_of(DOTS.to_vec().serialize(c, true));
    assert_eq!(text, "2e2e2e");

    let text = text_of(Bytes::new(&DOTS).serialize(c, true));
    assert_eq!(text, "2e2e2e");

    let text = text_of(ByteBuf::from_vec(DOTS.to_vec()).serialize(c, true));
    assert_eq!(text, "2e2e2e");

    let text = text_of(CowBytes::Borrowed(&DOTS).serialize(c, true));
    assert_eq!(text, "2e2e2e");

    let text = text_of(BoxedBytes::from_vec(DOTS.to_vec()).serialize(c, true));
    assert_eq!(text, "2e2e2e");

    let back = decode_vec(c, BinInput::OwnedStr(String::from("2e2e2e")), true).unwrap();
    assert_eq!(back, DOTS.to_vec());

    let back = decode_fixed(c, BinInput::OwnedStr(String::from("2e2e2e")), true, 3).unwrap();
    assert_eq!(back, DOTS.to_vec());

    let back = decode_option_vec(c, Some(BinInput::OwnedStr(String::from("2e2e2e"))), true)
        .unwrap();
    assert_eq!(back, Some(DOTS.to_vec()));
}

#[test]
fn test_readable_owned() {
    // The owned shapes alone, human-readable target.
    let c = TextCodec::Hex;

    let text = text_of(DOTS.to_vec().serialize(c, true));
    assert_eq!(text, "2e2e2e");

    let buf = human_bytes::decode_byte_buf(c, BinInput::OwnedStr(text), true).unwrap();
    assert_eq!(buf.as_slice(), DOTS.as_slice());

    let boxed = human_bytes::decode_boxed(
        c,
        BinInput::OwnedStr(String::from("2e2e2e")),
        true,
    )
    .unwrap();
    assert_eq!(boxed.into_vec(), DOTS.to_vec());

    let back = decode_option_fixed(c, Some(BinInput::OwnedStr(String::from("2e2e2e"))), true, 3)
        .unwrap();
    assert_eq!(back, Some(DOTS.to_vec()));
}

#[test]
fn test_bytes_readable() {
    let bytes = Bytes::new(&[65, 66, 67]);
    let text = text_of(bytes.serialize(TextCodec::Hex, true));
    assert_eq!(text, "414243");
}

#[test]
fn test_bytes() {
    let bytes = Bytes::new(&[65, 66, 67]);
    let raw = raw_of(bytes.serialize(TextCodec::Hex, false));
    assert_eq!(raw, vec![65u8, 66, 67]);
}

#[test]
fn test_byte_buf_readable() {
    let buf = ByteBuf::from_vec(vec![65, 66, 67]);
    let text = text_of(buf.serialize(TextCodec::Hex, true));
    assert_eq!(text, "414243");

    let back = human_bytes::decode_byte_buf(
        TextCodec::Hex,
        BinInput::OwnedStr(text),
        true,
    )
    .unwrap();
    assert_eq!(back.into_vec(), vec![65u8, 66, 67]);
}

#[test]
fn test_byte_buf() {
    let buf = ByteBuf::from_vec(vec![65, 66, 67]);
    let raw = raw_of(buf.serialize(TextCodec::Hex, false));
    assert_eq!(raw, vec![65u8, 66, 67]);

    let back = human_bytes::decode_byte_buf(TextCodec::Hex, BinInput::Owned(raw), false).unwrap();
    assert_eq!(back.into_vec(), vec![65u8, 66, 67]);
}

#[test]
fn test_bytearray_readable() {
    let arr: [u8; 3] = [65, 66, 67];
    let text = text_of(serialize(&arr, true));
    assert_eq!(text, "414243");

    let back = decode_fixed(TextCodec::Hex, BinInput::OwnedStr(text), true, 3).unwrap();
    assert_eq!(back, vec![65u8, 66, 67]);
}

#[test]
fn test_bytearray() {
    let arr: [u8; 3] = [65, 66, 67];
    let raw = raw_of(serialize(&arr, false));
    assert_eq!(raw, vec![65u8, 66, 67]);

    let back = decode_fixed(TextCodec::Hex, BinInput::Owned(raw), false, 3).unwrap();
    assert_eq!(back, vec![65u8, 66, 67]);
}

#[test]
fn test_base64_vec_readable() {
    let data: Vec<u8> = vec![65, 66, 67];
    let text = text_of(base64::serialize(&data, true));
    assert_eq!(text, "QUJD");

    let back = base64::deserialize(BinInput::OwnedStr(text), true).unwrap();
    assert_eq!(back, vec![65u8, 66, 67]);
}

#[test]
fn test_base64_vec_compact() {
    let data: Vec<u8> = vec![65, 66, 67];
    let raw = raw_of(base64::serialize(&data, false));
    assert_eq!(raw, b"ABC".to_vec());

    let back = base64::deserialize(BinInput::Owned(raw), false).unwrap();
    assert_eq!(back, vec![65u8, 66, 67]);
}

#[test]
fn test_base64_array_readable() {
    let arr: [u8; 3] = [65, 66, 67];
    let text = text_of(base64::serialize(&arr, true));
    assert_eq!(text, "QUJD");

    let back = decode_fixed(TextCodec::Base64, BinInput::OwnedStr(text), true, 3).unwrap();
    assert_eq!(back, vec![65u8, 66, 67]);
}

#[test]
fn test_base64_array_compact() {
    let arr: [u8; 3] = [65, 66, 67];
    let raw = raw_of(base64::serialize(&arr, false));
    assert_eq!(raw, b"ABC".to_vec());

    let back = decode_fixed(TextCodec::Base64, BinInput::Owned(raw), false, 3).unwrap();
    assert_eq!(back, vec![65u8, 66, 67]);
}
