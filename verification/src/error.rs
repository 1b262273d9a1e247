//! Decode failures.
//!
//! Encoding never fails: every byte sequence has both a raw and a textual
//! representation.  Decoding can fail in exactly three ways, and each call
//! reports which one synchronously; nothing is retried and nothing panics.

use vstd::prelude::*;

verus! {

/// Why a decode was refused.
#[derive(Clone, Copy, Debug, PartialEq, Eq, Structural)]
pub enum CodecError {
    /// The text form is malformed for the codec in use: a character outside
    /// the alphabet, an odd-length hex string, or bad Base64 length/padding.
    InvalidEncoding,
    /// The decoded byte count does not match a fixed-length target.
    InvalidLength,
    /// A borrowing shape was asked to decode from a source that cannot hand
    /// out a borrow (a textual value, or a transient owned value).  Such a
    /// request is refused rather than satisfied with a silent copy.
    UnsupportedOperation,
}

impl CodecError {
    /// A human-readable description, suitable for wrapping into a
    /// serialization framework's custom error.
    pub fn message(&self) -> (r: &'static str)
        ensures
            self is InvalidEncoding ==> r@ == "invalid text encoding of bytes"@,
            self is InvalidLength ==> r@ == "invalid byte array length"@,
            self is UnsupportedOperation ==> r@ == "borrowed decode is not supported here"@,
    {
        match self {
            CodecError::InvalidEncoding => "invalid text encoding of bytes",
            CodecError::InvalidLength => "invalid byte array length",
            CodecError::UnsupportedOperation => "borrowed decode is not supported here",
        }
    }
}

} // verus!
