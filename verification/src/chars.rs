//! Character-level helpers shared by the text codecs.

use vstd::prelude::*;

verus! {

/// Appends one character.  Relies on `String::push` of std: the character
/// goes on the end of the string and nothing else changes.
#[verifier::external_body]
pub(crate) fn push_char(s: &mut String, c: char)
    ensures
        final(s)@ == old(s)@.push(c),
{
    s.push(c);
}

/// An ASCII character and the byte it is stored as have the same code
/// point.
pub(crate) proof fn lemma_ascii_byte(c: char, b: u8)
    requires
        b == c as u8,
        (c as int) < 128,
    ensures
        (b as int) == (c as int),
{
}

/// Characters with the same code point are the same character.
pub(crate) proof fn lemma_char_eq(c1: char, c2: char)
    requires
        (c1 as int) == (c2 as int),
    ensures
        c1 == c2,
{
    vstd::utf8::char_u32_cast(c1, c1 as u32);
    vstd::utf8::char_u32_cast(c2, c2 as u32);
    assert((c1 as u32) as int == c1 as int);
    assert((c2 as u32) as int == c2 as int);
    assert(c1 as u32 == c2 as u32);
}

} // verus!
