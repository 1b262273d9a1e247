//! Lowercase hex text codec.
//!
//! Encoding renders each byte as two lowercase hex digits, with no
//! separators; the empty sequence encodes to the empty string.  Decoding
//! accepts both letter cases, and fails on an odd-length string or on any
//! character that is not a hex digit.

use vstd::prelude::*;

use crate::chars::lemma_ascii_byte;
use crate::chars::push_char;
use crate::error::CodecError;

verus! {

/// Numeric value of a hex digit given as a code point, or -1 when the code
/// point is not a hex digit.  Both cases of the letters are accepted.
pub open spec fn hex_val_of(x: int) -> int {
    if 48 <= x && x <= 57 {
        x - 48
    } else if 97 <= x && x <= 102 {
        x - 87
    } else if 65 <= x && x <= 70 {
        x - 55
    } else {
        -1
    }
}

/// Numeric value of one hex digit character, or -1 when the character is
/// not a hex digit.
pub open spec fn hex_val(c: char) -> int {
    hex_val_of(c as int)
}

/// The lowercase hex digit character for a value in `0 .. 16`.
pub open spec fn hex_digit(v: int) -> char {
    if 0 <= v && v < 10 {
        (48 + v) as char
    } else {
        (87 + v) as char
    }
}

/// The hex text form of a byte sequence: two digits per byte, high nibble
/// first.
pub open spec fn hex_encode(b: Seq<u8>) -> Seq<char> {
    Seq::new(
        2 * b.len(),
        |i: int|
            if i % 2 == 0 {
                hex_digit((b[i / 2] as int) / 16)
            } else {
                hex_digit((b[i / 2] as int) % 16)
            },
    )
}

/// Whether a character sequence is a well-formed hex encoding: even length
/// and every character a hex digit.
pub open spec fn hex_valid(s: Seq<char>) -> bool {
    &&& s.len() % 2 == 0
    &&& forall|i: int| 0 <= i < s.len() ==> hex_val(#[trigger] s[i]) >= 0
}

/// The bytes denoted by a well-formed hex encoding.
pub open spec fn hex_decode(s: Seq<char>) -> Seq<u8> {
    Seq::new(s.len() / 2, |i: int| (hex_val(s[2 * i]) * 16 + hex_val(s[2 * i + 1])) as u8)
}

/// Every hex encoding is well formed and decodes back to the bytes it came
/// from; in particular encode followed by decode is the identity.
pub proof fn lemma_hex_round_trip(b: Seq<u8>)
    ensures
        hex_valid(hex_encode(b)),
        hex_decode(hex_encode(b)) == b,
{
    let s = hex_encode(b);
    assert forall|i: int| 0 <= i < s.len() implies hex_val(#[trigger] s[i]) >= 0 by {
        let v = b[i / 2] as int;
        assert(0 <= v < 256);
    }
    assert forall|i: int| 0 <= i < b.len() implies hex_decode(s)[i] == b[i] by {
        let v = b[i] as int;
        assert(s[2 * i] == hex_digit(v / 16));
        assert(s[2 * i + 1] == hex_digit(v % 16));
        assert(hex_val(hex_digit(v / 16)) == v / 16);
        assert(hex_val(hex_digit(v % 16)) == v % 16);
        assert((v / 16) * 16 + v % 16 == v);
    }
    assert(hex_decode(s) =~= b);
}

/// The lowercase hex digit character for a nibble value.
fn hex_digit_exec(v: u8) -> (c: char)
    requires
        v < 16,
    ensures
        c == hex_digit(v as int),
{
    if v < 10 {
        (48 + v) as char
    } else {
        (87 + v) as char
    }
}

/// Encode bytes as lowercase hex text.
pub fn encode_hex(bytes: &[u8]) -> (r: String)
    ensures
        r@ == hex_encode(bytes@),
{
    let n = bytes.len();
    let mut out = String::new();
    let mut i: usize = 0;
    while i < n
        invariant
            i <= n,
            n == bytes@.len(),
            out@ == hex_encode(bytes@).take(2 * i as int),
        decreases n - i,
    {
        let b = bytes[i];
        let c_hi = hex_digit_exec(b / 16);
        let c_lo = hex_digit_exec(b % 16);
        push_char(&mut out, c_hi);
        push_char(&mut out, c_lo);
        proof {
            assert(out@ =~= hex_encode(bytes@).take(2 * (i + 1) as int));
        }
        i += 1;
    }
    proof {
        assert(out@ =~= hex_encode(bytes@));
    }
    out
}

/// Numeric value of a hex digit given as its ASCII byte, if it is one.
fn hex_val_exec(b: u8) -> (v: Option<u8>)
    ensures
        match v {
            Some(x) => {
                &&& b < 128
                &&& hex_val_of(b as int) == x
                &&& x < 16
            },
            None => hex_val_of(b as int) < 0,
        },
{
    if 48 <= b && b <= 57 {
        Some(b - 48)
    } else if 97 <= b && b <= 102 {
        Some(b - 87)
    } else if 65 <= b && b <= 70 {
        Some(b - 55)
    } else {
        None
    }
}

/// Decode hex text to bytes.  Succeeds exactly on well-formed hex; every
/// failure is `InvalidEncoding`.
pub fn decode_hex(s: &str) -> (r: Result<Vec<u8>, CodecError>)
    ensures
        r is Ok <==> hex_valid(s@),
        r is Ok ==> r->Ok_0@ == hex_decode(s@),
        r is Err ==> r->Err_0 == CodecError::InvalidEncoding,
{
    broadcast use vstd::string::is_ascii_spec_bytes;
    broadcast use vstd::utf8::is_ascii_chars_nat_bound;

    if !s.is_ascii() {
        proof {
            let cs = s@;
            assert(!vstd::utf8::is_ascii_chars(cs));
            let i = choose|i: int| !(0 <= i < cs.len() ==> '\0' <= #[trigger] cs[i] <= '\u{7f}');
            assert(hex_val(cs[i]) < 0);
        }
        return Err(CodecError::InvalidEncoding);
    }
    let bytes = s.as_bytes();
    let n = bytes.len();
    proof {
        assert(bytes@.len() == s@.len());
    }
    if n % 2 != 0 {
        return Err(CodecError::InvalidEncoding);
    }
    let mut out: Vec<u8> = Vec::new();
    let mut i: usize = 0;
    while i < n
        invariant
            i <= n,
            i % 2 == 0,
            n % 2 == 0,
            n == bytes@.len(),
            n == s@.len(),
            forall|j: int| 0 <= j < n ==> bytes@[j] == (#[trigger] s@[j]) as u8,
            forall|j: int| 0 <= j < n ==> (s@[j] as int) < 128,
            forall|j: int| 0 <= j < i ==> hex_val(#[trigger] s@[j]) >= 0,
            out@ == hex_decode(s@).take(i as int / 2),
        decreases n - i,
    {
        proof {
            let j = i as int;
            lemma_ascii_byte(s@[j], bytes@[j]);
            lemma_ascii_byte(s@[j + 1], bytes@[j + 1]);
        }
        let v_hi = hex_val_exec(bytes[i]);
        let v_lo = hex_val_exec(bytes[i + 1]);
        match (v_hi, v_lo) {
            (Some(hi), Some(lo)) => {
                out.push(hi * 16 + lo);
                proof {
                    assert(out@ =~= hex_decode(s@).take((i + 2) as int / 2));
                }
                i += 2;
            },
            _ => {
                proof {
                    if v_hi is None {
                        assert(hex_val(s@[i as int]) < 0);
                    } else {
                        assert(hex_val(s@[i as int + 1]) < 0);
                    }
                }
                return Err(CodecError::InvalidEncoding);
            },
        }
    }
    proof {
        assert(out@ =~= hex_decode(s@));
    }
    Ok(out)
}

} // verus!
