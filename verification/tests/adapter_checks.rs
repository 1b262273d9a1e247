//! Container adapter behavior: fixed-length enforcement, borrow
//! rejection, copy-on-write ownership, optional propagation, and the
//! value deserializers.

use human_bytes::capped_capacity;
use human_bytes::decode_cow;
use human_bytes::decode_fixed;
use human_bytes::decode_fixed_borrowed;
use human_bytes::decode_option_vec;
use human_bytes::decode_slice;
use human_bytes::decode_strong_borrowed;
use human_bytes::decode_strong_cow;
use human_bytes::serialize_option;
use human_bytes::BinInput;
use human_bytes::ByteBuf;
use human_bytes::Bytes;
use human_bytes::CodecError;
use human_bytes::CowBytes;
use human_bytes::OptWire;
use human_bytes::StrongCow;
use human_bytes::TextCodec;
use human_bytes::WireOutput;

#[test]
fn fixed_length_enforced() {
    // Decoded length 2, target length 3: refused with InvalidLength.
    let r = decode_fixed(TextCodec::Hex, BinInput::OwnedStr(String::from("0102")), true, 3);
    assert_eq!(r, Err(CodecError::InvalidLength));
    // Exactly 3: accepted.
    let r = decode_fixed(TextCodec::Hex, BinInput::OwnedStr(String::from("010203")), true, 3);
    assert_eq!(r, Ok(vec![1, 2, 3]));
    // Malformed text reports the encoding, not the length.
    let r = decode_fixed(TextCodec::Hex, BinInput::OwnedStr(String::from("zz")), true, 3);
    assert_eq!(r, Err(CodecError::InvalidEncoding));
    // The binary side enforces the length too.
    let r = decode_fixed(TextCodec::Hex, BinInput::Owned(vec![1, 2]), false, 3);
    assert_eq!(r, Err(CodecError::InvalidLength));
}

#[test]
fn borrow_rejected_from_textual_source() {
    // A borrowing shape must never satisfy a textual decode with a
    // silent copy, even when the string borrows from the input.
    let r = decode_slice(BinInput::BorrowedStr("010203"), true);
    assert_eq!(r, Err(CodecError::UnsupportedOperation));
    let r = decode_strong_borrowed(BinInput::OwnedStr(String::from("010203")), true);
    assert!(matches!(r, Err(CodecError::UnsupportedOperation)));
    let r = decode_fixed_borrowed(BinInput::BorrowedStr("010203"), true, 3);
    assert_eq!(r, Err(CodecError::UnsupportedOperation));
}

#[test]
fn borrow_rejected_from_transient_source() {
    // A binary source that only hands over owned bytes cannot satisfy a
    // borrow either.
    let r = decode_slice(BinInput::Owned(vec![1, 2, 3]), false);
    assert_eq!(r, Err(CodecError::UnsupportedOperation));
    let r = decode_slice(BinInput::Elements(vec![1, 2, 3]), false);
    assert_eq!(r, Err(CodecError::UnsupportedOperation));
}

#[test]
fn borrow_kept_from_borrowed_source() {
    let data: [u8; 3] = [1, 2, 3];
    let r = decode_slice(BinInput::Borrowed(&data), false).unwrap();
    assert_eq!(r, &[1, 2, 3]);
    let r = decode_fixed_borrowed(BinInput::Borrowed(&data), false, 3).unwrap();
    assert_eq!(r, &[1, 2, 3]);
    let r = decode_fixed_borrowed(BinInput::Borrowed(&data), false, 4);
    assert_eq!(r, Err(CodecError::InvalidLength));
    // A borrowed string is reinterpreted as its bytes.
    let r = decode_slice(BinInput::BorrowedStr("ABC"), false).unwrap();
    assert_eq!(r, b"ABC");
}

#[test]
fn cow_ownership_follows_source() {
    let data: [u8; 3] = [1, 2, 3];
    // Borrowed binary source: zero-copy.
    let r = decode_cow(TextCodec::Hex, BinInput::Borrowed(&data), false).unwrap();
    assert!(r.is_borrowed());
    assert_eq!(r.as_slice(), &[1, 2, 3]);
    // Owned binary source: owned result.
    let r = decode_cow(TextCodec::Hex, BinInput::Owned(vec![1, 2, 3]), false).unwrap();
    assert!(!r.is_borrowed());
    assert_eq!(r.as_slice(), &[1, 2, 3]);
    // Element-at-a-time source: owned result.
    let r = decode_cow(TextCodec::Hex, BinInput::Elements(vec![9, 8]), false).unwrap();
    assert!(!r.is_borrowed());
    assert_eq!(r.as_slice(), &[9, 8]);
    // Textual source: decoding allocates, so the result is owned.
    let r = decode_cow(TextCodec::Hex, BinInput::BorrowedStr("010203"), true).unwrap();
    assert!(!r.is_borrowed());
    assert_eq!(r.as_slice(), &[1, 2, 3]);
}

#[test]
fn strong_cow_keeps_ownership_class() {
    let data: [u8; 3] = [1, 2, 3];
    match decode_strong_cow(TextCodec::Hex, BinInput::Borrowed(&data), false).unwrap() {
        StrongCow::Borrowed(b) => assert_eq!(b.as_slice(), &[1, 2, 3]),
        StrongCow::Owned(_) => panic!("a borrowed source must stay borrowed"),
    }
    match decode_strong_cow(TextCodec::Hex, BinInput::OwnedStr(String::from("010203")), true)
        .unwrap()
    {
        StrongCow::Owned(v) => assert_eq!(v.into_vec(), vec![1, 2, 3]),
        StrongCow::Borrowed(_) => panic!("a textual decode must allocate"),
    }
}

#[test]
fn optional_absent_round_trip() {
    let opt: Option<Vec<u8>> = None;
    match serialize_option(&opt, TextCodec::Hex, true) {
        OptWire::Missing => {},
        OptWire::Present(_) => panic!("absent value must produce the none marker"),
    }
    let back = decode_option_vec(TextCodec::Hex, None, true).unwrap();
    assert_eq!(back, None);
}

#[test]
fn optional_present_round_trip() {
    let opt: Option<ByteBuf> = Some(ByteBuf::from_vec(vec![0xab, 0xcd]));
    let text = match serialize_option(&opt, TextCodec::Hex, true) {
        OptWire::Present(WireOutput::Text(s)) => s,
        _ => panic!("present value must produce the some marker with text"),
    };
    assert_eq!(text, "abcd");
    let back = decode_option_vec(TextCodec::Hex, Some(BinInput::OwnedStr(text)), true).unwrap();
    assert_eq!(back, Some(vec![0xab, 0xcd]));
    // Errors inside the inner shape propagate.
    let bad = decode_option_vec(
        TextCodec::Hex,
        Some(BinInput::OwnedStr(String::from("x"))),
        true,
    );
    assert_eq!(bad, Err(CodecError::InvalidEncoding));
}

#[test]
fn empty_sequence_round_trips() {
    let empty: [u8; 0] = [];
    match human_bytes::serialize(&empty, true) {
        WireOutput::Text(s) => assert_eq!(s, ""),
        WireOutput::Raw(_) => panic!("readable target must produce text"),
    }
    let back = human_bytes::deserialize(BinInput::OwnedStr(String::new()), true).unwrap();
    assert_eq!(back, Vec::<u8>::new());
    let back = human_bytes::deserialize(BinInput::Owned(Vec::new()), false).unwrap();
    assert_eq!(back, Vec::<u8>::new());
}

#[test]
fn human_readable_decode_needs_a_string() {
    let r = human_bytes::deserialize(BinInput::Owned(vec![1, 2, 3]), true);
    assert_eq!(r, Err(CodecError::InvalidEncoding));
}

#[test]
fn capped_capacity_bounds_hints() {
    assert_eq!(capped_capacity(None), 0);
    assert_eq!(capped_capacity(Some(17)), 17);
    assert_eq!(capped_capacity(Some(4096)), 4096);
    assert_eq!(capped_capacity(Some(usize::MAX)), 4096);
}

#[test]
fn error_messages() {
    assert_eq!(
        CodecError::InvalidEncoding.message(),
        "invalid text encoding of bytes"
    );
    assert_eq!(CodecError::InvalidLength.message(), "invalid byte array length");
    assert_eq!(
        CodecError::UnsupportedOperation.message(),
        "borrowed decode is not supported here"
    );
}

#[test]
fn value_deserializers_hand_bytes_through() {
    let data: [u8; 3] = [7, 8, 9];
    let bytes = Bytes::new(&data);
    let src = bytes.into_deserializer().deserialize();
    let back = human_bytes::decode_vec(TextCodec::Hex, src, false).unwrap();
    assert_eq!(back, vec![7, 8, 9]);

    let buf = ByteBuf::from_vec(vec![7, 8, 9]);
    let src = buf.into_deserializer().deserialize();
    // An owned value re-entering a decode still supports the borrowless
    // owned path only.
    let back = human_bytes::decode_vec(TextCodec::Hex, src, false).unwrap();
    assert_eq!(back, vec![7, 8, 9]);
}

#[test]
fn cow_wrapper_views() {
    let data: [u8; 2] = [5, 6];
    let c: CowBytes = CowBytes::Borrowed(&data);
    assert!(c.is_borrowed());
    assert_eq!(c.as_slice(), &[5, 6]);
    let c: CowBytes = CowBytes::Owned(vec![5, 6]);
    assert!(!c.is_borrowed());
    assert_eq!(c.as_slice(), &[5, 6]);
}
