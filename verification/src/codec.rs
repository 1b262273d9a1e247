//! The codec selector and the wire model.
//!
//! One capability flag decides, per call, which representation travels:
//! `human_readable == true` picks the textual transform of the codec in
//! use, `false` passes the raw bytes through.  The same flag must be used
//! on both sides of a round trip.
//!
//! The wire model stands for the primitives a serialization framework
//! offers: [`WireOutput`] is what an encode hands the framework,
//! [`BinInput`] the byte-bearing forms a framework can hand a decode.

use vstd::prelude::*;

use crate::base64_codec;
use crate::error::CodecError;
use crate::hex_codec;

verus! {

/// Which text transform a codec variant uses.  The choice is made when a
/// codec variant is linked in, never per value.
#[derive(Clone, Copy, Debug, PartialEq, Eq, Structural)]
pub enum TextCodec {
    /// Lowercase hex, two digits per byte.
    Hex,
    /// Base64, standard alphabet with `=` padding.
    Base64,
}

/// The text form of a byte sequence under the given codec.
pub open spec fn text_encode(codec: TextCodec, b: Seq<u8>) -> Seq<char> {
    match codec {
        TextCodec::Hex => hex_codec::hex_encode(b),
        TextCodec::Base64 => base64_codec::b64_encode(b),
    }
}

/// Whether a character sequence is a well-formed text form under the
/// given codec.
pub open spec fn text_valid(codec: TextCodec, s: Seq<char>) -> bool {
    match codec {
        TextCodec::Hex => hex_codec::hex_valid(s),
        TextCodec::Base64 => base64_codec::b64_valid(s),
    }
}

/// The bytes denoted by a well-formed text form.
pub open spec fn text_decode(codec: TextCodec, s: Seq<char>) -> Seq<u8> {
    match codec {
        TextCodec::Hex => hex_codec::hex_decode(s),
        TextCodec::Base64 => base64_codec::b64_decode(s),
    }
}

/// For either codec, every text encoding is well formed and decodes back
/// to the bytes it came from.
pub proof fn lemma_text_round_trip(codec: TextCodec, b: Seq<u8>)
    ensures
        text_valid(codec, text_encode(codec, b)),
        text_decode(codec, text_encode(codec, b)) == b,
{
    match codec {
        TextCodec::Hex => hex_codec::lemma_hex_round_trip(b),
        TextCodec::Base64 => base64_codec::lemma_b64_round_trip(b),
    }
}

/// Encode bytes as text under the given codec.
pub fn encode_text(codec: TextCodec, bytes: &[u8]) -> (r: String)
    ensures
        r@ == text_encode(codec, bytes@),
{
    match codec {
        TextCodec::Hex => hex_codec::encode_hex(bytes),
        TextCodec::Base64 => base64_codec::encode_b64(bytes),
    }
}

/// Decode text under the given codec.  Succeeds exactly on well-formed
/// text; every failure is `InvalidEncoding`.
pub fn decode_text(codec: TextCodec, s: &str) -> (r: Result<Vec<u8>, CodecError>)
    ensures
        r is Ok <==> text_valid(codec, s@),
        r is Ok ==> r->Ok_0@ == text_decode(codec, s@),
        r is Err ==> r->Err_0 == CodecError::InvalidEncoding,
{
    match codec {
        TextCodec::Hex => hex_codec::decode_hex(s),
        TextCodec::Base64 => base64_codec::decode_b64(s),
    }
}

/// What an encode hands the serialization framework: a string value for
/// human-readable targets, a raw byte value for binary targets.
pub enum WireOutput {
    /// Emit as a string primitive.
    Text(String),
    /// Emit as a raw byte-sequence primitive.
    Raw(Vec<u8>),
}

/// The contract of every encode path: for a human-readable target, the
/// text form of the bytes; for a binary target, the bytes unchanged.
pub open spec fn wire_is(codec: TextCodec, b: Seq<u8>, human_readable: bool, w: WireOutput) -> bool {
    if human_readable {
        &&& w is Text
        &&& w->Text_0@ == text_encode(codec, b)
    } else {
        &&& w is Raw
        &&& w->Raw_0@ == b
    }
}

/// Encode bytes for the chosen target.  Encoding never fails.
pub fn encode_bytes(codec: TextCodec, bytes: &[u8], human_readable: bool) -> (w: WireOutput)
    ensures
        wire_is(codec, bytes@, human_readable, w),
{
    if human_readable {
        WireOutput::Text(encode_text(codec, bytes))
    } else {
        WireOutput::Raw(vstd::slice::slice_to_vec(bytes))
    }
}

/// A byte-bearing value obtained from the framework on decode.  Binary
/// formats may hand bytes out in any of these forms; the two borrowed
/// forms are the only ones a zero-copy decode can keep.
pub enum BinInput<'a> {
    /// A byte view borrowed from the input, valid beyond this call.
    Borrowed(&'a [u8]),
    /// A string borrowed from the input, reinterpreted as its bytes.
    BorrowedStr(&'a str),
    /// An owned byte buffer handed over by the framework.
    Owned(Vec<u8>),
    /// An owned string handed over by the framework, reinterpreted as its
    /// bytes.
    OwnedStr(String),
    /// Bytes consumed one element at a time from a generic sequence, for
    /// binary formats without a dedicated byte-buffer primitive.
    Elements(Vec<u8>),
}

/// The bytes a binary input carries; for the string forms, the UTF-8
/// bytes of the string.
pub open spec fn bin_bytes(src: BinInput) -> Seq<u8> {
    match src {
        BinInput::Borrowed(b) => b@,
        BinInput::BorrowedStr(t) => vstd::utf8::encode_utf8(t@),
        BinInput::Owned(v) => v@,
        BinInput::OwnedStr(t) => vstd::utf8::encode_utf8(t@),
        BinInput::Elements(v) => v@,
    }
}

/// Whether the input hands out a borrow that outlives the call.
pub open spec fn bin_is_borrowed(src: BinInput) -> bool {
    src is Borrowed || src is BorrowedStr
}

/// The string a textual input carries, if the framework handed a string.
pub open spec fn bin_text(src: BinInput) -> Option<Seq<char>> {
    match src {
        BinInput::BorrowedStr(t) => Some(t@),
        BinInput::OwnedStr(t) => Some(t@),
        _ => None,
    }
}

/// Materialize the bytes of a binary input as an owned buffer.  The
/// borrowed forms are copied; the owned forms are moved.
pub fn bin_into_vec(src: BinInput<'_>) -> (r: Vec<u8>)
    ensures
        r@ == bin_bytes(src),
{
    match src {
        BinInput::Borrowed(b) => vstd::slice::slice_to_vec(b),
        BinInput::BorrowedStr(t) => t.as_bytes_vec(),
        BinInput::Owned(v) => v,
        BinInput::OwnedStr(t) => t.as_str().as_bytes_vec(),
        BinInput::Elements(v) => v,
    }
}

/// Borrow the bytes of a binary input without copying.  Only the borrowed
/// forms can satisfy this; every other form is refused, never silently
/// copied.
pub fn bin_borrow<'a>(src: BinInput<'a>) -> (r: Result<&'a [u8], CodecError>)
    ensures
        r is Ok <==> bin_is_borrowed(src),
        r is Ok ==> r->Ok_0@ == bin_bytes(src),
        r is Err ==> r->Err_0 == CodecError::UnsupportedOperation,
{
    match src {
        BinInput::Borrowed(b) => Ok(b),
        BinInput::BorrowedStr(t) => Ok(t.as_bytes()),
        _ => Err(CodecError::UnsupportedOperation),
    }
}

/// Whether a decode of the given input succeeds under the selector: a
/// human-readable decode needs a string value holding well-formed text;
/// a binary decode accepts every byte-bearing form.
pub open spec fn wire_decode_ok(codec: TextCodec, src: BinInput, human_readable: bool) -> bool {
    if human_readable {
        match bin_text(src) {
            Some(cs) => text_valid(codec, cs),
            None => false,
        }
    } else {
        true
    }
}

/// The bytes a successful decode of the given input produces.
pub open spec fn wire_decoded(codec: TextCodec, src: BinInput, human_readable: bool) -> Seq<u8> {
    if human_readable {
        text_decode(codec, bin_text(src)->Some_0)
    } else {
        bin_bytes(src)
    }
}

/// Decode an owned byte buffer from the framework's value.  For a
/// human-readable source the string is text-decoded and the result is
/// always a fresh allocation; a binary source is taken as it is.  Fails
/// with `InvalidEncoding` exactly when the text is malformed or a
/// human-readable decode was handed a non-string value.
pub fn decode_bytes(codec: TextCodec, src: BinInput<'_>, human_readable: bool) -> (r: Result<
    Vec<u8>,
    CodecError,
>)
    ensures
        r is Ok <==> wire_decode_ok(codec, src, human_readable),
        r is Ok ==> r->Ok_0@ == wire_decoded(codec, src, human_readable),
        r is Err ==> r->Err_0 == CodecError::InvalidEncoding,
{
    if human_readable {
        match src {
            BinInput::BorrowedStr(t) => decode_text(codec, t),
            BinInput::OwnedStr(t) => decode_text(codec, t.as_str()),
            _ => Err(CodecError::InvalidEncoding),
        }
    } else {
        Ok(bin_into_vec(src))
    }
}

/// How much to pre-allocate for an element-at-a-time sequence whose
/// length hint comes from untrusted input: the hint, capped at 4096 so a
/// crafted length prefix cannot force an unbounded allocation.
pub fn capped_capacity(size_hint: Option<usize>) -> (r: usize)
    ensures
        r == if size_hint is Some && size_hint->0 < 4096 {
            size_hint->0
        } else if size_hint is Some {
            4096usize
        } else {
            0usize
        },
{
    match size_hint {
        Some(h) => {
            if h < 4096 {
                h
            } else {
                4096
            }
        },
        None => 0,
    }
}

} // verus!
