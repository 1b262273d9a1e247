//! Byte-holding container shapes.
//!
//! These are the wrapper types whose encode and decode adapters the crate
//! provides, beside the plain `Vec<u8>` and `&[u8]` shapes: the "strong
//! bytes" markers that tell a framework a value is unambiguously a byte
//! buffer rather than a generic sequence of numbers, the
//! borrowed-or-owned copy-on-write buffer, and the heap-owned
//! fixed-capacity buffer.

use vstd::prelude::*;

verus! {

/// A borrowed byte view marked as carrying byte-sequence semantics.
#[derive(Clone, Copy)]
pub struct Bytes<'a> {
    data: &'a [u8],
}

impl<'a> View for Bytes<'a> {
    type V = Seq<u8>;

    closed spec fn view(&self) -> Seq<u8> {
        self.data@
    }
}

impl<'a> Bytes<'a> {
    /// Wraps a borrowed slice; no bytes are copied.
    pub fn new(data: &'a [u8]) -> (r: Self)
        ensures
            r@ == data@,
    {
        Bytes { data }
    }

    /// The underlying borrowed slice.
    pub fn as_slice(&self) -> (r: &'a [u8])
        ensures
            r@ == self@,
    {
        self.data
    }
}

/// An owned byte buffer marked as carrying byte-sequence semantics.
pub struct ByteBuf {
    data: Vec<u8>,
}

impl View for ByteBuf {
    type V = Seq<u8>;

    closed spec fn view(&self) -> Seq<u8> {
        self.data@
    }
}

impl ByteBuf {
    /// Wraps an owned buffer; the bytes are moved, not copied.
    pub fn from_vec(data: Vec<u8>) -> (r: Self)
        ensures
            r@ == data@,
    {
        ByteBuf { data }
    }

    /// Releases the owned buffer.
    pub fn into_vec(self) -> (r: Vec<u8>)
        ensures
            r@ == self@,
    {
        self.data
    }

    /// A view of the held bytes.
    pub fn as_slice(&self) -> (r: &[u8])
        ensures
            r@ == self@,
    {
        self.data.as_slice()
    }
}

/// A heap-owned buffer of fixed capacity: decoded bytes move in once and
/// the buffer is not resized afterwards.
pub struct BoxedBytes {
    data: Vec<u8>,
}

impl View for BoxedBytes {
    type V = Seq<u8>;

    closed spec fn view(&self) -> Seq<u8> {
        self.data@
    }
}

impl BoxedBytes {
    /// Takes ownership of an already-materialized buffer.
    pub fn from_vec(data: Vec<u8>) -> (r: Self)
        ensures
            r@ == data@,
    {
        BoxedBytes { data }
    }

    /// Releases the owned buffer.
    pub fn into_vec(self) -> (r: Vec<u8>)
        ensures
            r@ == self@,
    {
        self.data
    }

    /// A view of the held bytes.
    pub fn as_slice(&self) -> (r: &[u8])
        ensures
            r@ == self@,
    {
        self.data.as_slice()
    }
}

/// A byte buffer that is either a borrowed view into the decode source or
/// an owned allocation.  Decoding from a textual source always produces
/// the owned form; binary sources that hand out a borrow keep it.
pub enum CowBytes<'a> {
    /// A zero-copy view into memory owned by the caller.
    Borrowed(&'a [u8]),
    /// A freshly allocated buffer.
    Owned(Vec<u8>),
}

impl<'a> View for CowBytes<'a> {
    type V = Seq<u8>;

    open spec fn view(&self) -> Seq<u8> {
        match self {
            CowBytes::Borrowed(b) => b@,
            CowBytes::Owned(v) => v@,
        }
    }
}

impl<'a> CowBytes<'a> {
    /// Whether this value borrows the caller's memory.
    pub open spec fn spec_is_borrowed(&self) -> bool {
        self is Borrowed
    }

    /// Whether this value borrows the caller's memory.
    pub fn is_borrowed(&self) -> (r: bool)
        ensures
            r == self.spec_is_borrowed(),
    {
        match self {
            CowBytes::Borrowed(_) => true,
            CowBytes::Owned(_) => false,
        }
    }

    /// A view of the held bytes.
    pub fn as_slice(&self) -> (r: &[u8])
        ensures
            r@ == self@,
    {
        match self {
            CowBytes::Borrowed(b) => b,
            CowBytes::Owned(v) => v.as_slice(),
        }
    }
}

/// A copy-on-write buffer wrapped in the strong-bytes marker: the
/// borrowed side carries [`Bytes`], the owned side [`ByteBuf`].
pub enum StrongCow<'a> {
    /// A zero-copy strong-bytes view.
    Borrowed(Bytes<'a>),
    /// An owned strong-bytes buffer.
    Owned(ByteBuf),
}

impl<'a> View for StrongCow<'a> {
    type V = Seq<u8>;

    open spec fn view(&self) -> Seq<u8> {
        match self {
            StrongCow::Borrowed(b) => b@,
            StrongCow::Owned(v) => v@,
        }
    }
}

impl<'a> StrongCow<'a> {
    /// Whether this value borrows the caller's memory.
    pub open spec fn spec_is_borrowed(&self) -> bool {
        self is Borrowed
    }

    /// Whether this value borrows the caller's memory.
    pub fn is_borrowed(&self) -> (r: bool)
        ensures
            r == self.spec_is_borrowed(),
    {
        match self {
            StrongCow::Borrowed(_) => true,
            StrongCow::Owned(_) => false,
        }
    }

    /// A view of the held bytes.
    pub fn as_slice(&self) -> (r: &[u8])
        ensures
            r@ == self@,
    {
        match self {
            StrongCow::Borrowed(b) => b.as_slice(),
            StrongCow::Owned(v) => v.as_slice(),
        }
    }
}

} // verus!
