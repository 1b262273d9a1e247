//! Entry points of the Base64 codec variant.
//!
//! The default entry points at the crate root use hex; these use Base64
//! with the standard alphabet and `=` padding.  Which variant a field
//! uses is decided where the call is written, never per value.

use vstd::prelude::*;

use crate::codec::wire_decode_ok;
use crate::codec::wire_decoded;
use crate::codec::wire_is;
use crate::codec::BinInput;
use crate::codec::TextCodec;
use crate::codec::WireOutput;
use crate::error::CodecError;

verus! {

/// Encode bytes for the chosen target: a Base64 string when the target
/// is human readable, the raw bytes otherwise.  Encoding never fails.
pub fn serialize(bytes: &[u8], human_readable: bool) -> (w: WireOutput)
    ensures
        wire_is(TextCodec::Base64, bytes@, human_readable, w),
{
    crate::adapters::serialize_slice(bytes, TextCodec::Base64, human_readable)
}

/// Decode bytes from the framework's value: a human-readable source is
/// Base64-decoded, a binary source is taken as it is.
pub fn deserialize(src: BinInput<'_>, human_readable: bool) -> (r: Result<Vec<u8>, CodecError>)
    ensures
        r is Ok <==> wire_decode_ok(TextCodec::Base64, src, human_readable),
        r is Ok ==> r->Ok_0@ == wire_decoded(TextCodec::Base64, src, human_readable),
        r is Err ==> r->Err_0 == CodecError::InvalidEncoding,
{
    crate::adapters::decode_vec(TextCodec::Base64, src, human_readable)
}

} // verus!
