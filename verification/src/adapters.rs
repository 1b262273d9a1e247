//! The container adapter layer: one encode and one decode path per
//! byte-holding shape.
//!
//! Every encode delegates to the codec selector, so every shape exhibits
//! identical wire behavior.  Decodes differ per shape: a fixed-length
//! target checks the decoded byte count, borrowing shapes refuse sources
//! that cannot hand out a borrow, and the copy-on-write shapes keep a
//! borrow exactly when the source offers one.

use vstd::prelude::*;

use crate::codec::bin_borrow;
use crate::codec::bin_bytes;
use crate::codec::bin_is_borrowed;
use crate::codec::bin_text;
use crate::codec::decode_bytes;
use crate::codec::encode_bytes;
use crate::codec::lemma_text_round_trip;
use crate::codec::wire_decode_ok;
use crate::codec::wire_decoded;
use crate::codec::wire_is;
use crate::codec::BinInput;
use crate::codec::TextCodec;
use crate::codec::WireOutput;
use crate::error::CodecError;
use crate::wrappers::BoxedBytes;
use crate::wrappers::ByteBuf;
use crate::wrappers::Bytes;
use crate::wrappers::CowBytes;
use crate::wrappers::StrongCow;

verus! {

/// Containers that can be encoded as a byte sequence.
pub trait Serialize {
    /// The byte sequence this container holds.
    spec fn byte_view(&self) -> Seq<u8>;

    /// Encode the held bytes for the chosen target.  The shape only
    /// decides where the bytes come from; the wire form is the same for
    /// every shape.
    fn serialize(&self, codec: TextCodec, human_readable: bool) -> (w: WireOutput)
        ensures
            wire_is(codec, self.byte_view(), human_readable, w),
    ;
}

impl Serialize for Vec<u8> {
    open spec fn byte_view(&self) -> Seq<u8> {
        self@
    }

    fn serialize(&self, codec: TextCodec, human_readable: bool) -> (w: WireOutput)
        ensures
            wire_is(codec, self.byte_view(), human_readable, w),
    {
        encode_bytes(codec, self.as_slice(), human_readable)
    }
}

impl<'a> Serialize for Bytes<'a> {
    open spec fn byte_view(&self) -> Seq<u8> {
        self@
    }

    fn serialize(&self, codec: TextCodec, human_readable: bool) -> (w: WireOutput)
        ensures
            wire_is(codec, self.byte_view(), human_readable, w),
    {
        encode_bytes(codec, self.as_slice(), human_readable)
    }
}

impl Serialize for ByteBuf {
    open spec fn byte_view(&self) -> Seq<u8> {
        self@
    }

    fn serialize(&self, codec: TextCodec, human_readable: bool) -> (w: WireOutput)
        ensures
            wire_is(codec, self.byte_view(), human_readable, w),
    {
        encode_bytes(codec, self.as_slice(), human_readable)
    }
}

impl Serialize for BoxedBytes {
    open spec fn byte_view(&self) -> Seq<u8> {
        self@
    }

    fn serialize(&self, codec: TextCodec, human_readable: bool) -> (w: WireOutput)
        ensures
            wire_is(codec, self.byte_view(), human_readable, w),
    {
        encode_bytes(codec, self.as_slice(), human_readable)
    }
}

impl<'a> Serialize for CowBytes<'a> {
    open spec fn byte_view(&self) -> Seq<u8> {
        self@
    }

    fn serialize(&self, codec: TextCodec, human_readable: bool) -> (w: WireOutput)
        ensures
            wire_is(codec, self.byte_view(), human_readable, w),
    {
        encode_bytes(codec, self.as_slice(), human_readable)
    }
}

impl<'a> Serialize for StrongCow<'a> {
    open spec fn byte_view(&self) -> Seq<u8> {
        self@
    }

    fn serialize(&self, codec: TextCodec, human_readable: bool) -> (w: WireOutput)
        ensures
            wire_is(codec, self.byte_view(), human_readable, w),
    {
        encode_bytes(codec, self.as_slice(), human_readable)
    }
}

/// Encode a bare slice: the shape behind `&[u8]` and `[u8; N]` fields.
pub fn serialize_slice(bytes: &[u8], codec: TextCodec, human_readable: bool) -> (w: WireOutput)
    ensures
        wire_is(codec, bytes@, human_readable, w),
{
    encode_bytes(codec, bytes, human_readable)
}

/// Decode an owned growable buffer.
pub fn decode_vec(codec: TextCodec, src: BinInput<'_>, human_readable: bool) -> (r: Result<
    Vec<u8>,
    CodecError,
>)
    ensures
        r is Ok <==> wire_decode_ok(codec, src, human_readable),
        r is Ok ==> r->Ok_0@ == wire_decoded(codec, src, human_readable),
        r is Err ==> r->Err_0 == CodecError::InvalidEncoding,
{
    decode_bytes(codec, src, human_readable)
}

/// Decode a borrowed byte view.  A textual source can never satisfy the
/// borrow — the decoded bytes would not outlive the call — so it is
/// refused outright rather than answered with a silent copy; a binary
/// source must itself hand out a borrow.
pub fn decode_slice<'a>(src: BinInput<'a>, human_readable: bool) -> (r: Result<
    &'a [u8],
    CodecError,
>)
    ensures
        r is Ok <==> (!human_readable && bin_is_borrowed(src)),
        r is Ok ==> r->Ok_0@ == bin_bytes(src),
        r is Err ==> r->Err_0 == CodecError::UnsupportedOperation,
{
    if human_readable {
        Err(CodecError::UnsupportedOperation)
    } else {
        bin_borrow(src)
    }
}

/// Decode a borrowed strong-bytes view, the borrowing analogue of
/// [`ByteBuf`]; same rules as [`decode_slice`].
pub fn decode_strong_borrowed<'a>(src: BinInput<'a>, human_readable: bool) -> (r: Result<
    Bytes<'a>,
    CodecError,
>)
    ensures
        r is Ok <==> (!human_readable && bin_is_borrowed(src)),
        r is Ok ==> r->Ok_0@ == bin_bytes(src),
        r is Err ==> r->Err_0 == CodecError::UnsupportedOperation,
{
    match decode_slice(src, human_readable) {
        Ok(b) => Ok(Bytes::new(b)),
        Err(e) => Err(e),
    }
}

/// Decode into a fixed-length target of `n` bytes.  A well-formed source
/// whose decoded byte count differs from `n` fails with `InvalidLength`;
/// a malformed source fails with `InvalidEncoding`.
pub fn decode_fixed(codec: TextCodec, src: BinInput<'_>, human_readable: bool, n: usize) -> (r:
    Result<Vec<u8>, CodecError>)
    ensures
        r is Ok <==> (wire_decode_ok(codec, src, human_readable) && wire_decoded(
            codec,
            src,
            human_readable,
        ).len() == n),
        r is Ok ==> r->Ok_0@ == wire_decoded(codec, src, human_readable),
        r is Err ==> r->Err_0 == (if wire_decode_ok(codec, src, human_readable) {
            CodecError::InvalidLength
        } else {
            CodecError::InvalidEncoding
        }),
{
    match decode_bytes(codec, src, human_readable) {
        Ok(v) => {
            if v.len() == n {
                Ok(v)
            } else {
                Err(CodecError::InvalidLength)
            }
        },
        Err(e) => Err(e),
    }
}

/// Decode a borrowed fixed-length view of `n` bytes: the borrow rules of
/// [`decode_slice`], then the length check.
pub fn decode_fixed_borrowed<'a>(src: BinInput<'a>, human_readable: bool, n: usize) -> (r: Result<
    &'a [u8],
    CodecError,
>)
    ensures
        r is Ok <==> (!human_readable && bin_is_borrowed(src) && bin_bytes(src).len() == n),
        r is Ok ==> r->Ok_0@ == bin_bytes(src),
        r is Err ==> r->Err_0 == (if !human_readable && bin_is_borrowed(src) {
            CodecError::InvalidLength
        } else {
            CodecError::UnsupportedOperation
        }),
{
    match decode_slice(src, human_readable) {
        Ok(b) => {
            if b.len() == n {
                Ok(b)
            } else {
                Err(CodecError::InvalidLength)
            }
        },
        Err(e) => Err(e),
    }
}

/// Decode an owned strong-bytes buffer.
pub fn decode_byte_buf(codec: TextCodec, src: BinInput<'_>, human_readable: bool) -> (r: Result<
    ByteBuf,
    CodecError,
>)
    ensures
        r is Ok <==> wire_decode_ok(codec, src, human_readable),
        r is Ok ==> r->Ok_0@ == wire_decoded(codec, src, human_readable),
        r is Err ==> r->Err_0 == CodecError::InvalidEncoding,
{
    match decode_bytes(codec, src, human_readable) {
        Ok(v) => Ok(ByteBuf::from_vec(v)),
        Err(e) => Err(e),
    }
}

/// Decode a heap-owned fixed-capacity buffer: the owned-buffer decode,
/// converted into boxed form.
pub fn decode_boxed(codec: TextCodec, src: BinInput<'_>, human_readable: bool) -> (r: Result<
    BoxedBytes,
    CodecError,
>)
    ensures
        r is Ok <==> wire_decode_ok(codec, src, human_readable),
        r is Ok ==> r->Ok_0@ == wire_decoded(codec, src, human_readable),
        r is Err ==> r->Err_0 == CodecError::InvalidEncoding,
{
    match decode_bytes(codec, src, human_readable) {
        Ok(v) => Ok(BoxedBytes::from_vec(v)),
        Err(e) => Err(e),
    }
}

/// Decode a copy-on-write buffer.  A textual source always produces the
/// owned form (decoding must materialize new bytes); a binary source
/// keeps a borrow exactly when it offers one, and is copied otherwise.
pub fn decode_cow<'a>(codec: TextCodec, src: BinInput<'a>, human_readable: bool) -> (r: Result<
    CowBytes<'a>,
    CodecError,
>)
    ensures
        r is Ok <==> wire_decode_ok(codec, src, human_readable),
        r is Ok ==> r->Ok_0@ == wire_decoded(codec, src, human_readable),
        r is Ok ==> (r->Ok_0.spec_is_borrowed() <==> (!human_readable && bin_is_borrowed(src))),
        r is Err ==> r->Err_0 == CodecError::InvalidEncoding,
{
    if human_readable {
        match decode_bytes(codec, src, human_readable) {
            Ok(v) => Ok(CowBytes::Owned(v)),
            Err(e) => Err(e),
        }
    } else {
        match src {
            BinInput::Borrowed(b) => Ok(CowBytes::Borrowed(b)),
            BinInput::BorrowedStr(t) => Ok(CowBytes::Borrowed(t.as_bytes())),
            other => {
                let v = crate::codec::bin_into_vec(other);
                Ok(CowBytes::Owned(v))
            },
        }
    }
}

/// Decode a copy-on-write strong-bytes buffer: the copy-on-write decode,
/// reclassified into the strong-bytes marker with its owned-or-borrowed
/// state kept.
pub fn decode_strong_cow<'a>(codec: TextCodec, src: BinInput<'a>, human_readable: bool) -> (r:
    Result<StrongCow<'a>, CodecError>)
    ensures
        r is Ok <==> wire_decode_ok(codec, src, human_readable),
        r is Ok ==> r->Ok_0@ == wire_decoded(codec, src, human_readable),
        r is Ok ==> (r->Ok_0.spec_is_borrowed() <==> (!human_readable && bin_is_borrowed(src))),
        r is Err ==> r->Err_0 == CodecError::InvalidEncoding,
{
    match decode_cow(codec, src, human_readable) {
        Ok(CowBytes::Borrowed(b)) => Ok(StrongCow::Borrowed(Bytes::new(b))),
        Ok(CowBytes::Owned(v)) => Ok(StrongCow::Owned(ByteBuf::from_vec(v))),
        Err(e) => Err(e),
    }
}

/// What an optional encode hands the framework: an explicit absence
/// marker, or a presence marker wrapping the inner shape's output.
pub enum OptWire {
    /// The explicit "none" marker.
    Missing,
    /// The "some" marker around the inner encode.
    Present(WireOutput),
}

/// The byte sequences held by an optional container.
pub open spec fn opt_byte_view<T: Serialize>(opt: &Option<T>) -> Option<Seq<u8>> {
    match opt {
        Option::None => None,
        Option::Some(t) => Some(t.byte_view()),
    }
}

/// The contract of an optional encode: absence becomes the explicit
/// marker, presence recurses into the inner shape.
pub open spec fn opt_wire_is(
    codec: TextCodec,
    b: Option<Seq<u8>>,
    human_readable: bool,
    w: OptWire,
) -> bool {
    match b {
        Option::None => w is Missing,
        Option::Some(bs) => w is Present && wire_is(codec, bs, human_readable, w->Present_0),
    }
}

/// Encode an optional container: an absent value becomes the explicit
/// "none" marker, a present one is encoded by its own shape under the
/// "some" marker.
pub fn serialize_option<T: Serialize>(
    opt: &Option<T>,
    codec: TextCodec,
    human_readable: bool,
) -> (w: OptWire)
    ensures
        opt_wire_is(codec, opt_byte_view(opt), human_readable, w),
{
    match opt {
        Option::Some(t) => OptWire::Present(t.serialize(codec, human_readable)),
        Option::None => OptWire::Missing,
    }
}

/// Decode an optional owned buffer: the absence marker becomes `None`,
/// a present value is decoded by the owned-buffer path.
pub fn decode_option_vec(codec: TextCodec, src: Option<BinInput<'_>>, human_readable: bool) -> (r:
    Result<Option<Vec<u8>>, CodecError>)
    ensures
        src is None ==> r is Ok && r->Ok_0 is None,
        src is Some ==> {
            &&& r is Ok <==> wire_decode_ok(codec, src->0, human_readable)
            &&& r is Ok ==> r->Ok_0 is Some && r->Ok_0->0@ == wire_decoded(
                codec,
                src->0,
                human_readable,
            )
            &&& r is Err ==> r->Err_0 == CodecError::InvalidEncoding
        },
{
    match src {
        Option::None => Ok(None),
        Option::Some(inner) => {
            match decode_bytes(codec, inner, human_readable) {
                Ok(v) => Ok(Some(v)),
                Err(e) => Err(e),
            }
        },
    }
}

/// Decode an optional fixed-length target of `n` bytes: the absence
/// marker becomes `None`, a present value is decoded by the fixed-length
/// path with its length check.
pub fn decode_option_fixed(
    codec: TextCodec,
    src: Option<BinInput<'_>>,
    human_readable: bool,
    n: usize,
) -> (r: Result<Option<Vec<u8>>, CodecError>)
    ensures
        src is None ==> r is Ok && r->Ok_0 is None,
        src is Some ==> {
            &&& r is Ok <==> (wire_decode_ok(codec, src->0, human_readable) && wire_decoded(
                codec,
                src->0,
                human_readable,
            ).len() == n)
            &&& r is Ok ==> r->Ok_0 is Some && r->Ok_0->0@ == wire_decoded(
                codec,
                src->0,
                human_readable,
            )
            &&& r is Err ==> r->Err_0 == (if wire_decode_ok(codec, src->0, human_readable) {
                CodecError::InvalidLength
            } else {
                CodecError::InvalidEncoding
            })
        },
{
    match src {
        Option::None => Ok(None),
        Option::Some(inner) => {
            match decode_fixed(codec, inner, human_readable, n) {
                Ok(v) => Ok(Some(v)),
                Err(e) => Err(e),
            }
        },
    }
}

/// Round trip in binary mode: what any shape encodes for a binary target
/// is raw bytes, and any binary source carrying those bytes decodes to
/// them — for the empty sequence as well.
pub proof fn lemma_binary_round_trip(codec: TextCodec, b: Seq<u8>, w: WireOutput, src: BinInput)
    requires
        wire_is(codec, b, false, w),
        bin_bytes(src) == w->Raw_0@,
    ensures
        wire_decode_ok(codec, src, false),
        wire_decoded(codec, src, false) == b,
{
}

/// Round trip in textual mode: what any shape encodes for a
/// human-readable target is well-formed text, and a source handing that
/// string back decodes to the original bytes.
pub proof fn lemma_textual_round_trip(codec: TextCodec, b: Seq<u8>, w: WireOutput, src: BinInput)
    requires
        wire_is(codec, b, true, w),
        bin_text(src) == Some(w->Text_0@),
    ensures
        wire_decode_ok(codec, src, true),
        wire_decoded(codec, src, true) == b,
{
    lemma_text_round_trip(codec, b);
}

/// Optional round trip: absence travels as the explicit marker and comes
/// back absent; a present value keeps the inner shape's round trip, in
/// either mode.
pub proof fn lemma_option_round_trip(
    codec: TextCodec,
    bv: Option<Seq<u8>>,
    human_readable: bool,
    w: OptWire,
    src: Option<BinInput>,
)
    requires
        opt_wire_is(codec, bv, human_readable, w),
        w is Missing <==> src is None,
        w is Present ==> (if human_readable {
            bin_text(src->0) == Some(w->Present_0->Text_0@)
        } else {
            bin_bytes(src->0) == w->Present_0->Raw_0@
        }),
    ensures
        src is None <==> bv is None,
        bv is Some ==> wire_decode_ok(codec, src->0, human_readable) && wire_decoded(
            codec,
            src->0,
            human_readable,
        ) == bv->0,
{
    if bv is Some {
        if human_readable {
            lemma_textual_round_trip(codec, bv->0, w->Present_0, src->0);
        } else {
            lemma_binary_round_trip(codec, bv->0, w->Present_0, src->0);
        }
    }
}

} // verus!
