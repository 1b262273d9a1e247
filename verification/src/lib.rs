//! Byte sequences with a dual wire representation.
//!
//! A byte-valued field can travel either as a raw byte string (compact,
//! for binary formats) or as an encoded text string (hex or Base64, for
//! human-readable formats such as JSON).  This crate holds the logic that
//! picks the representation, performs the text transforms, and adapts the
//! result to the container shape the caller uses: owned buffers, borrowed
//! views, fixed-length arrays, optional values, copy-on-write buffers,
//! boxed buffers, and "strong bytes" wrapper types.
//!
//! The entry points at the crate root use hex; the [`base64`] module
//! offers the same pair over Base64.

use vstd::prelude::*;

mod adapters;
pub mod base64;
mod base64_codec;
mod chars;
mod codec;
mod error;
mod hex_codec;
mod value;
mod wrappers;

pub use adapters::decode_boxed;
pub use adapters::decode_byte_buf;
pub use adapters::decode_cow;
pub use adapters::decode_fixed;
pub use adapters::decode_fixed_borrowed;
pub use adapters::decode_option_fixed;
pub use adapters::decode_option_vec;
pub use adapters::decode_slice;
pub use adapters::decode_strong_borrowed;
pub use adapters::decode_strong_cow;
pub use adapters::decode_vec;
pub use adapters::lemma_binary_round_trip;
pub use adapters::lemma_option_round_trip;
pub use adapters::lemma_textual_round_trip;
pub use adapters::opt_byte_view;
pub use adapters::opt_wire_is;
pub use adapters::serialize_option;
pub use adapters::serialize_slice;
pub use adapters::OptWire;
pub use adapters::Serialize;
pub use base64_codec::b64_decode;
pub use base64_codec::b64_encode;
pub use base64_codec::b64_valid;
pub use base64_codec::decode_b64;
pub use base64_codec::encode_b64;
pub use base64_codec::lemma_b64_round_trip;
pub use codec::bin_bytes;
pub use codec::bin_is_borrowed;
pub use codec::bin_text;
pub use codec::capped_capacity;
pub use codec::decode_bytes;
pub use codec::decode_text;
pub use codec::encode_bytes;
pub use codec::encode_text;
pub use codec::lemma_text_round_trip;
pub use codec::text_decode;
pub use codec::text_encode;
pub use codec::text_valid;
pub use codec::wire_decode_ok;
pub use codec::wire_decoded;
pub use codec::wire_is;
pub use codec::BinInput;
pub use codec::TextCodec;
pub use codec::WireOutput;
pub use error::CodecError;
pub use hex_codec::decode_hex;
pub use hex_codec::encode_hex;
pub use hex_codec::hex_decode;
pub use hex_codec::hex_encode;
pub use hex_codec::hex_valid;
pub use hex_codec::lemma_hex_round_trip;
pub use value::ByteBufDeserializer;
pub use value::BytesDeserializer;
pub use wrappers::BoxedBytes;
pub use wrappers::ByteBuf;
pub use wrappers::Bytes;
pub use wrappers::CowBytes;
pub use wrappers::StrongCow;

verus! {

/// Encode bytes for the chosen target: a lowercase hex string when the
/// target is human readable, the raw bytes otherwise.  Encoding never
/// fails.
pub fn serialize(bytes: &[u8], human_readable: bool) -> (w: WireOutput)
    ensures
        wire_is(TextCodec::Hex, bytes@, human_readable, w),
{
    adapters::serialize_slice(bytes, TextCodec::Hex, human_readable)
}

/// Decode bytes from the framework's value: a human-readable source is
/// hex-decoded, a binary source is taken as it is.
pub fn deserialize(src: BinInput<'_>, human_readable: bool) -> (r: Result<Vec<u8>, CodecError>)
    ensures
        r is Ok <==> wire_decode_ok(TextCodec::Hex, src, human_readable),
        r is Ok ==> r->Ok_0@ == wire_decoded(TextCodec::Hex, src, human_readable),
        r is Err ==> r->Err_0 == CodecError::InvalidEncoding,
{
    adapters::decode_vec(TextCodec::Hex, src, human_readable)
}

} // verus!
