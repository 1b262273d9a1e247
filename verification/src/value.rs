//! Value deserializers: already-materialized byte values re-entering a
//! decode as its source.
//!
//! A [`Bytes`] or [`ByteBuf`] value can stand in for a framework's input,
//! handing its bytes straight to a visitor-style decode.  The borrowed
//! wrapper hands out a borrowed view, the owned wrapper its buffer.

use vstd::prelude::*;

use crate::codec::BinInput;
use crate::wrappers::ByteBuf;
use crate::wrappers::Bytes;

verus! {

/// A deserializer that deserializes a borrowed byte view.
pub struct BytesDeserializer<'a> {
    value: &'a [u8],
}

impl<'a> View for BytesDeserializer<'a> {
    type V = Seq<u8>;

    closed spec fn view(&self) -> Seq<u8> {
        self.value@
    }
}

impl<'a> BytesDeserializer<'a> {
    /// Wraps a borrowed byte view.
    pub fn new(value: &'a [u8]) -> (r: Self)
        ensures
            r@ == value@,
    {
        BytesDeserializer { value }
    }

    /// Hands the bytes to a decode as a borrowed binary source.
    pub fn deserialize(self) -> (r: BinInput<'a>)
        ensures
            r is Borrowed,
            crate::codec::bin_bytes(r) == self@,
    {
        BinInput::Borrowed(self.value)
    }
}

/// A deserializer that deserializes an owned byte buffer.
pub struct ByteBufDeserializer {
    value: Vec<u8>,
}

impl View for ByteBufDeserializer {
    type V = Seq<u8>;

    closed spec fn view(&self) -> Seq<u8> {
        self.value@
    }
}

impl ByteBufDeserializer {
    /// Wraps an owned byte buffer.
    pub fn new(value: Vec<u8>) -> (r: Self)
        ensures
            r@ == value@,
    {
        ByteBufDeserializer { value }
    }

    /// Hands the bytes to a decode as an owned binary source.
    pub fn deserialize(self) -> (r: BinInput<'static>)
        ensures
            r is Owned,
            crate::codec::bin_bytes(r) == self@,
    {
        BinInput::Owned(self.value)
    }
}

impl<'a> Bytes<'a> {
    /// Turns this borrowed strong-bytes view into a value deserializer.
    pub fn into_deserializer(self) -> (r: BytesDeserializer<'a>)
        ensures
            r@ == self@,
    {
        BytesDeserializer { value: self.as_slice() }
    }
}

impl ByteBuf {
    /// Turns this owned strong-bytes buffer into a value deserializer.
    pub fn into_deserializer(self) -> (r: ByteBufDeserializer)
        ensures
            r@ == self@,
    {
        ByteBufDeserializer { value: self.into_vec() }
    }
}

} // verus!
