//! Base64 text codec: standard alphabet, `=` padding.
//!
//! Encoding renders each 3-byte group as 4 alphabet characters; a final
//! group of 1 or 2 bytes is padded with `==` or `=`.  The empty sequence
//! encodes to the empty string.  Decoding is strict: the length must be a
//! multiple of 4, every character before the padding must be in the
//! alphabet, padding is only accepted in the last one or two positions,
//! and unused trailing bits must be zero.

use vstd::prelude::*;

use crate::chars::lemma_ascii_byte;
use crate::chars::lemma_char_eq;
use crate::chars::push_char;
use crate::error::CodecError;

verus! {

/// Value of a standard-alphabet character given as a code point, or -1
/// when the code point is not in the alphabet.  `=` is not in the
/// alphabet.
pub open spec fn b64_val_of(x: int) -> int {
    if 65 <= x && x <= 90 {
        x - 65
    } else if 97 <= x && x <= 122 {
        x - 71
    } else if 48 <= x && x <= 57 {
        x + 4
    } else if x == 43 {
        62
    } else if x == 47 {
        63
    } else {
        -1
    }
}

/// Value of one Base64 character, or -1 when it is not in the alphabet.
pub open spec fn b64_val(c: char) -> int {
    b64_val_of(c as int)
}

/// The standard-alphabet character for a value in `0 .. 64`.
pub open spec fn b64_digit(v: int) -> char {
    if 0 <= v && v < 26 {
        (65 + v) as char
    } else if 26 <= v && v < 52 {
        (71 + v) as char
    } else if 52 <= v && v < 62 {
        (v - 4) as char
    } else if v == 62 {
        '+'
    } else {
        '/'
    }
}

/// Length of the Base64 text form of `n` bytes: four characters for every
/// started group of three bytes.
pub open spec fn b64_enc_len(n: nat) -> nat {
    4 * ((n + 2) / 3)
}

/// Character `i` of the Base64 text form of `b`.
pub open spec fn b64_char_at(b: Seq<u8>, i: int) -> char {
    let g = i / 4;
    let r = i % 4;
    let n = b.len() as int;
    let b0 = b[3 * g] as int;
    if r == 0 {
        b64_digit(b0 / 4)
    } else if r == 1 {
        let b1 = if 3 * g + 1 < n {
            b[3 * g + 1] as int
        } else {
            0
        };
        b64_digit((b0 % 4) * 16 + b1 / 16)
    } else if r == 2 {
        if 3 * g + 1 < n {
            let b1 = b[3 * g + 1] as int;
            let b2 = if 3 * g + 2 < n {
                b[3 * g + 2] as int
            } else {
                0
            };
            b64_digit((b1 % 16) * 4 + b2 / 64)
        } else {
            '='
        }
    } else {
        if 3 * g + 2 < n {
            b64_digit(b[3 * g + 2] as int % 64)
        } else {
            '='
        }
    }
}

/// The Base64 text form of a byte sequence.
pub open spec fn b64_encode(b: Seq<u8>) -> Seq<char> {
    Seq::new(b64_enc_len(b.len()), |i: int| b64_char_at(b, i))
}

/// How many padding characters close the sequence: 2 when the last two
/// characters are `=`, 1 when only the last is, else 0.
pub open spec fn b64_pad(s: Seq<char>) -> int {
    let n = s.len() as int;
    if n >= 1 && s[n - 1] == '=' {
        if n >= 2 && s[n - 2] == '=' {
            2
        } else {
            1
        }
    } else {
        0
    }
}

/// Whether a character sequence is a well-formed Base64 encoding: length a
/// multiple of four, every character before the padding in the alphabet,
/// and the unused low bits of the last data character zero.
pub open spec fn b64_valid(s: Seq<char>) -> bool {
    let n = s.len() as int;
    let p = b64_pad(s);
    &&& n % 4 == 0
    &&& forall|i: int| 0 <= i < n - p ==> b64_val(#[trigger] s[i]) >= 0
    &&& (p == 1 ==> b64_val(s[n - 2]) % 4 == 0)
    &&& (p == 2 ==> b64_val(s[n - 3]) % 16 == 0)
}

/// Byte `i` denoted by a well-formed Base64 encoding.
pub open spec fn b64_byte_at(s: Seq<char>, i: int) -> u8 {
    let g = i / 3;
    let r = i % 3;
    if r == 0 {
        (b64_val(s[4 * g]) * 4 + b64_val(s[4 * g + 1]) / 16) as u8
    } else if r == 1 {
        ((b64_val(s[4 * g + 1]) % 16) * 16 + b64_val(s[4 * g + 2]) / 4) as u8
    } else {
        ((b64_val(s[4 * g + 2]) % 4) * 64 + b64_val(s[4 * g + 3])) as u8
    }
}

/// The bytes denoted by a well-formed Base64 encoding.
pub open spec fn b64_decode(s: Seq<char>) -> Seq<u8> {
    Seq::new((3 * (s.len() / 4) - b64_pad(s)) as nat, |i: int| b64_byte_at(s, i))
}

/// Every character the encoder emits at a data position is in the
/// alphabet and carries the value the decoder reads back.
proof fn lemma_digit_val(v: int)
    requires
        0 <= v < 64,
    ensures
        b64_val(b64_digit(v)) == v,
        b64_digit(v) != '=',
{
}

/// Every Base64 encoding is well formed and decodes back to the bytes it
/// came from; in particular encode followed by decode is the identity.
pub proof fn lemma_b64_round_trip(b: Seq<u8>)
    ensures
        b64_valid(b64_encode(b)),
        b64_decode(b64_encode(b)) == b,
{
    let s = b64_encode(b);
    let n = b.len() as int;
    let m = s.len() as int;
    let p = b64_pad(s);
    assert(m == 4 * ((n + 2) / 3));
    assert forall|i: int| 0 <= i < m implies (#[trigger] s[i]) == b64_char_at(b, i) by {}

    if n == 0 {
        assert(b64_valid(s));
        assert(b64_decode(s) =~= b);
    } else {
        // The last group starts at character 4 * ((n - 1) / 3).
        let lg = (n - 1) / 3;
        assert(m == 4 * lg + 4) by {
            assert((n + 2) / 3 == (n - 1) / 3 + 1);
        }
        // Establish the padding count from the shape of the last group.
        if n % 3 == 0 {
            assert(3 * lg + 2 < n) by {
                assert(n == 3 * ((n - 1) / 3) + 3);
            }
            lemma_digit_val(b[3 * lg + 2] as int % 64);
            assert(s[m - 1] == b64_digit(b[3 * lg + 2] as int % 64));
            assert(p == 0);
        } else if n % 3 == 1 {
            assert(3 * lg + 1 == n) by {
                assert(n == 3 * ((n - 1) / 3) + 1);
            }
            assert(s[m - 1] == '=');
            assert(s[m - 2] == '=');
            assert(p == 2);
        } else {
            assert(3 * lg + 2 == n) by {
                assert(n == 3 * ((n - 1) / 3) + 2);
            }
            assert(s[m - 1] == '=');
            let b1 = b[3 * lg + 1] as int;
            lemma_digit_val((b1 % 16) * 4);
            assert(s[m - 2] == b64_digit((b1 % 16) * 4));
            assert(p == 1);
        }
        // Every data character is an alphabet character.
        assert forall|i: int| 0 <= i < m - p implies b64_val(#[trigger] s[i]) >= 0 by {
            let g = i / 4;
            let r = i % 4;
            assert(0 <= g <= lg);
            assert(3 * g < n) by {
                if g == lg {
                    assert(3 * lg <= n - 1);
                } else {
                    assert(g <= lg - 1);
                    assert(3 * g <= 3 * lg - 3);
                }
            }
            let b0 = b[3 * g] as int;
            if r == 0 {
                lemma_digit_val(b0 / 4);
            } else if r == 1 {
                let b1 = if 3 * g + 1 < n {
                    b[3 * g + 1] as int
                } else {
                    0
                };
                lemma_digit_val((b0 % 4) * 16 + b1 / 16);
            } else if r == 2 {
                assert(3 * g + 1 < n) by {
                    if g == lg {
                        // A `=` at position 4 * lg + 2 would lie inside the
                        // data region only if p were 0 or 1.
                        if n % 3 == 1 {
                            assert(i < m - 2);
                            assert(i >= 4 * lg + 2);
                        }
                    } else {
                        assert(3 * g + 3 <= 3 * lg < n);
                    }
                }
                let b1 = b[3 * g + 1] as int;
                let b2 = if 3 * g + 2 < n {
                    b[3 * g + 2] as int
                } else {
                    0
                };
                lemma_digit_val((b1 % 16) * 4 + b2 / 64);
            } else {
                assert(3 * g + 2 < n) by {
                    if g == lg {
                        if n % 3 == 1 {
                            assert(i < m - 2);
                            assert(i >= 4 * lg + 3);
                        }
                        if n % 3 == 2 {
                            assert(i < m - 1);
                            assert(i >= 4 * lg + 3);
                        }
                    } else {
                        assert(3 * g + 3 <= 3 * lg < n);
                    }
                }
                lemma_digit_val(b[3 * g + 2] as int % 64);
            }
        }
        // Canonical trailing bits.
        if p == 1 {
            let b1 = b[3 * lg + 1] as int;
            lemma_digit_val((b1 % 16) * 4);
            assert(b64_val(s[m - 2]) % 4 == 0);
        }
        if p == 2 {
            let b0 = b[3 * lg] as int;
            lemma_digit_val((b0 % 4) * 16);
            assert(s[m - 2 - 1] == b64_char_at(b, 4 * lg + 1));
            assert(b64_val(s[m - 3]) % 16 == 0);
        }
        assert(b64_valid(s));
        // The decoded length is the original length.
        assert(3 * (m / 4) - p == n) by {
            assert(m / 4 == lg + 1);
            if n % 3 == 0 {
                assert(n == 3 * lg + 3);
            } else if n % 3 == 1 {
                assert(n == 3 * lg + 1);
            } else {
                assert(n == 3 * lg + 2);
            }
        }
        // Every decoded byte is the original byte.
        assert forall|i: int| 0 <= i < n implies b64_decode(s)[i] == b[i] by {
            let g = i / 3;
            let r = i % 3;
            assert(0 <= g <= lg);
            assert(3 * g + r == i);
            let b0 = b[3 * g] as int;
            assert(s[4 * g] == b64_digit(b0 / 4));
            lemma_digit_val(b0 / 4);
            if r == 0 {
                let b1 = if 3 * g + 1 < n {
                    b[3 * g + 1] as int
                } else {
                    0
                };
                assert(s[4 * g + 1] == b64_digit((b0 % 4) * 16 + b1 / 16));
                lemma_digit_val((b0 % 4) * 16 + b1 / 16);
                assert((b0 / 4) * 4 + ((b0 % 4) * 16 + b1 / 16) / 16 == b0) by (nonlinear_arith)
                    requires
                        0 <= b0 < 256,
                        0 <= b1 < 256,
                ;
                assert(b64_byte_at(s, i) == b[i]);
            } else if r == 1 {
                assert(3 * g + 1 == i < n);
                let b1 = b[3 * g + 1] as int;
                let b2 = if 3 * g + 2 < n {
                    b[3 * g + 2] as int
                } else {
                    0
                };
                assert(s[4 * g + 1] == b64_digit((b0 % 4) * 16 + b1 / 16));
                lemma_digit_val((b0 % 4) * 16 + b1 / 16);
                assert(s[4 * g + 2] == b64_digit((b1 % 16) * 4 + b2 / 64));
                lemma_digit_val((b1 % 16) * 4 + b2 / 64);
                assert((((b0 % 4) * 16 + b1 / 16) % 16) * 16 + ((b1 % 16) * 4 + b2 / 64) / 4
                    == b1) by (nonlinear_arith)
                    requires
                        0 <= b0 < 256,
                        0 <= b1 < 256,
                        0 <= b2 < 256,
                ;
                assert(b64_byte_at(s, i) == b[i]);
            } else {
                assert(3 * g + 2 == i < n);
                let b1 = b[3 * g + 1] as int;
                let b2 = b[3 * g + 2] as int;
                assert(s[4 * g + 2] == b64_digit((b1 % 16) * 4 + b2 / 64));
                lemma_digit_val((b1 % 16) * 4 + b2 / 64);
                assert(s[4 * g + 3] == b64_digit(b2 % 64));
                lemma_digit_val(b2 % 64);
                assert((((b1 % 16) * 4 + b2 / 64) % 4) * 64 + b2 % 64 == b2) by (nonlinear_arith)
                    requires
                        0 <= b1 < 256,
                        0 <= b2 < 256,
                ;
                assert(b64_byte_at(s, i) == b[i]);
            }
        }
        assert(b64_decode(s) =~= b);
    }
}

/// The standard-alphabet character for a 6-bit value.
fn b64_digit_exec(v: u8) -> (c: char)
    requires
        v < 64,
    ensures
        c == b64_digit(v as int),
{
    if v < 26 {
        (65 + v) as char
    } else if v < 52 {
        (71 + v) as char
    } else if v < 62 {
        (v - 4) as char
    } else if v == 62 {
        '+'
    } else {
        '/'
    }
}

/// Encode bytes as Base64 text: standard alphabet, `=` padding.
pub fn encode_b64(bytes: &[u8]) -> (r: String)
    ensures
        r@ == b64_encode(bytes@),
{
    let n = bytes.len();
    let groups = n / 3 + (if n % 3 != 0 {
        1usize
    } else {
        0usize
    });
    proof {
        assert(groups as int == (n as int + 2) / 3);
    }
    let mut out = String::new();
    let mut g: usize = 0;
    while g < groups
        invariant
            g <= groups,
            n == bytes@.len(),
            groups as int == (n as int + 2) / 3,
            out@ == b64_encode(bytes@).take(4 * g as int),
        decreases groups - g,
    {
        proof {
            assert(3 * (g as int) < (n as int)) by {
                assert(g as int <= (n as int + 2) / 3 - 1);
            }
        }
        let i = 3 * g;
        let b0 = bytes[i];
        let c0 = b64_digit_exec(b0 / 4);
        push_char(&mut out, c0);
        if i + 1 < n {
            let b1 = bytes[i + 1];
            let c1 = b64_digit_exec((b0 % 4) * 16 + b1 / 16);
            push_char(&mut out, c1);
            if i + 2 < n {
                let b2 = bytes[i + 2];
                let c2 = b64_digit_exec((b1 % 16) * 4 + b2 / 64);
                let c3 = b64_digit_exec(b2 % 64);
                push_char(&mut out, c2);
                push_char(&mut out, c3);
            } else {
                let c2 = b64_digit_exec((b1 % 16) * 4);
                push_char(&mut out, c2);
                push_char(&mut out, '=');
            }
        } else {
            let c1 = b64_digit_exec((b0 % 4) * 16);
            push_char(&mut out, c1);
            push_char(&mut out, '=');
            push_char(&mut out, '=');
        }
        proof {
            assert(out@ =~= b64_encode(bytes@).take(4 * (g + 1) as int));
        }
        g += 1;
    }
    proof {
        assert(out@ =~= b64_encode(bytes@));
    }
    out
}

/// Value of a standard-alphabet character given as its ASCII byte, if it
/// is one.
fn b64_val_exec(b: u8) -> (v: Option<u8>)
    ensures
        match v {
            Some(x) => {
                &&& b < 128
                &&& b64_val_of(b as int) == x
                &&& x < 64
            },
            None => b64_val_of(b as int) < 0,
        },
{
    if 65 <= b && b <= 90 {
        Some(b - 65)
    } else if 97 <= b && b <= 122 {
        Some(b - 71)
    } else if 48 <= b && b <= 57 {
        Some(b + 4)
    } else if b == 43 {
        Some(62)
    } else if b == 47 {
        Some(63)
    } else {
        None
    }
}

/// Decode Base64 text to bytes.  Succeeds exactly on well-formed Base64;
/// every failure is `InvalidEncoding`.
pub fn decode_b64(s: &str) -> (r: Result<Vec<u8>, CodecError>)
    ensures
        r is Ok <==> b64_valid(s@),
        r is Ok ==> r->Ok_0@ == b64_decode(s@),
        r is Err ==> r->Err_0 == CodecError::InvalidEncoding,
{
    broadcast use vstd::string::is_ascii_spec_bytes;
    broadcast use vstd::utf8::is_ascii_chars_nat_bound;

    if !s.is_ascii() {
        proof {
            let cs = s@;
            let n = cs.len() as int;
            assert(!vstd::utf8::is_ascii_chars(cs));
            let i = choose|i: int| !(0 <= i < cs.len() ==> '\0' <= #[trigger] cs[i] <= '\u{7f}');
            assert(b64_val(cs[i]) < 0);
            // The character at `i` is not `=`, so `i` lies before the
            // padding and the alphabet clause of validity fails there.
            if b64_valid(cs) {
                let p = b64_pad(cs);
                assert(cs[i] as int >= 128);
                if p >= 1 {
                    assert(cs[n - 1] == '=');
                }
                if p == 2 {
                    assert(cs[n - 2] == '=');
                }
                assert(i < n - p);
            }
        }
        return Err(CodecError::InvalidEncoding);
    }
    let bytes = s.as_bytes();
    let n = bytes.len();
    proof {
        assert(bytes@.len() == s@.len());
        assert forall|j: int| 0 <= j < n as int implies (bytes@[j] as int) == ((#[trigger] s@[j]) as int) by {
            assert((s@[j] as nat) < 128);
            lemma_ascii_byte(s@[j], bytes@[j]);
        }
    }
    if n % 4 != 0 {
        return Err(CodecError::InvalidEncoding);
    }
    if n == 0 {
        let empty: Vec<u8> = Vec::new();
        proof {
            assert(b64_valid(s@));
            assert(empty@ =~= b64_decode(s@));
        }
        return Ok(empty);
    }
    let p: usize = if bytes[n - 1] == 61 {
        if bytes[n - 2] == 61 {
            2
        } else {
            1
        }
    } else {
        0
    };
    proof {
        let cs = s@;
        let ni = n as int;
        if bytes@[ni - 1] == 61 {
            lemma_char_eq(cs[ni - 1], '=');
        }
        if bytes@[ni - 2] == 61 {
            lemma_char_eq(cs[ni - 2], '=');
        }
        assert(p as int == b64_pad(cs));
    }
    let groups = n / 4;
    let mut out: Vec<u8> = Vec::new();
    let mut g: usize = 0;
    while g < groups - 1
        invariant
            g < groups,
            groups == n / 4,
            n % 4 == 0,
            4 <= n,
            n == bytes@.len(),
            n == s@.len(),
            forall|j: int| 0 <= j < n as int ==> (bytes@[j] as int) == ((#[trigger] s@[j]) as int),
            p <= 2,
            p as int == b64_pad(s@),
            forall|j: int| 0 <= j < 4 * g as int ==> b64_val(#[trigger] s@[j]) >= 0,
            out@ == b64_decode(s@).take(3 * g as int),
        decreases groups - g,
    {
        let q = 4 * g;
        let v0o = b64_val_exec(bytes[q]);
        let v1o = b64_val_exec(bytes[q + 1]);
        let v2o = b64_val_exec(bytes[q + 2]);
        let v3o = b64_val_exec(bytes[q + 3]);
        match (v0o, v1o, v2o, v3o) {
            (Some(v0), Some(v1), Some(v2), Some(v3)) => {
                out.push(v0 * 4 + v1 / 16);
                out.push((v1 % 16) * 16 + v2 / 4);
                out.push((v2 % 4) * 64 + v3);
                proof {
                    assert(out@ =~= b64_decode(s@).take(3 * (g + 1) as int));
                }
                g += 1;
            },
            _ => {
                proof {
                    let q4 = 4 * g as int;
                    assert(q4 + 3 < n as int - 2) by {
                        assert(g as int <= groups as int - 2);
                    }
                    if v0o is None {
                        assert(b64_val(s@[q4]) < 0);
                    } else if v1o is None {
                        assert(b64_val(s@[q4 + 1]) < 0);
                    } else if v2o is None {
                        assert(b64_val(s@[q4 + 2]) < 0);
                    } else {
                        assert(b64_val(s@[q4 + 3]) < 0);
                    }
                }
                return Err(CodecError::InvalidEncoding);
            },
        }
    }
    let q = 4 * (groups - 1);
    proof {
        assert(q as int + 4 == n as int);
    }
    let v0o = b64_val_exec(bytes[q]);
    let v1o = b64_val_exec(bytes[q + 1]);
    let (v0, v1) = match (v0o, v1o) {
        (Some(v0), Some(v1)) => (v0, v1),
        _ => {
            proof {
                if v0o is None {
                    assert(b64_val(s@[q as int]) < 0);
                } else {
                    assert(b64_val(s@[q as int + 1]) < 0);
                }
            }
            return Err(CodecError::InvalidEncoding);
        },
    };
    if p == 0 {
        let v2o = b64_val_exec(bytes[q + 2]);
        let v3o = b64_val_exec(bytes[q + 3]);
        match (v2o, v3o) {
            (Some(v2), Some(v3)) => {
                out.push(v0 * 4 + v1 / 16);
                out.push((v1 % 16) * 16 + v2 / 4);
                out.push((v2 % 4) * 64 + v3);
                proof {
                    assert forall|j: int| 0 <= j < n as int - 0 implies b64_val(
                        #[trigger] s@[j],
                    ) >= 0 by {}
                    assert(b64_valid(s@));
                    assert(out@ =~= b64_decode(s@));
                }
                Ok(out)
            },
            _ => {
                proof {
                    if v2o is None {
                        assert(b64_val(s@[q as int + 2]) < 0);
                    } else {
                        assert(b64_val(s@[q as int + 3]) < 0);
                    }
                }
                Err(CodecError::InvalidEncoding)
            },
        }
    } else if p == 1 {
        let v2o = b64_val_exec(bytes[q + 2]);
        match v2o {
            Some(v2) => {
                if v2 % 4 != 0 {
                    proof {
                        assert(b64_val(s@[n as int - 2]) % 4 != 0);
                    }
                    return Err(CodecError::InvalidEncoding);
                }
                out.push(v0 * 4 + v1 / 16);
                out.push((v1 % 16) * 16 + v2 / 4);
                proof {
                    assert forall|j: int| 0 <= j < n as int - 1 implies b64_val(
                        #[trigger] s@[j],
                    ) >= 0 by {}
                    assert(b64_valid(s@));
                    assert(out@ =~= b64_decode(s@));
                }
                Ok(out)
            },
            None => {
                proof {
                    assert(b64_val(s@[q as int + 2]) < 0);
                }
                Err(CodecError::InvalidEncoding)
            },
        }
    } else {
        if v1 % 16 != 0 {
            proof {
                assert(b64_val(s@[n as int - 3]) % 16 != 0);
            }
            return Err(CodecError::InvalidEncoding);
        }
        out.push(v0 * 4 + v1 / 16);
        proof {
            assert forall|j: int| 0 <= j < n as int - 2 implies b64_val(#[trigger] s@[j]) >= 0 by {}
            assert(b64_valid(s@));
            assert(out@ =~= b64_decode(s@));
        }
        Ok(out)
    }
}

} // verus!
