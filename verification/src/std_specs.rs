//! What this library takes from `std` without proof.
//!
//! Everything else in the crate is verified against the contracts below.

use vstd::prelude::*;

verus! {

/// A Unicode scalar value: a code point that is not a surrogate.
pub open spec fn is_scalar_value(i: u32) -> bool {
    i <= 0xD7FF || (0xE000 <= i && i <= 0x10FFFF)
}

/// `std::char::from_u32` converts a number to the character with that code
/// point. Assumed: it returns the character exactly when the number is a
/// Unicode scalar value, and `None` otherwise.
pub assume_specification[ std::char::from_u32 ](i: u32) -> (c: Option<char>)
    ensures
        is_scalar_value(i) ==> c == Some(i as char),
        !is_scalar_value(i) ==> c is None,
;

/// `String::push` appends one character. Assumed: the string afterwards is
/// the string before with that character at its end.
pub assume_specification[ String::push ](s: &mut String, ch: char)
    ensures
        final(s)@ == old(s)@.push(ch),
;

/// The text that `std` prints for a character under `{:?}`: the character
/// between single quotes, written with an escape where `std` chooses one.
/// Nothing is assumed of the text but that the character determines it.
pub uninterp spec fn char_debug_text(c: char) -> Seq<char>;

/// Formats a character with `std`'s `Debug` for `char`. Assumed: the text
/// depends on the character alone.
#[verifier::external_body]
pub(crate) fn char_debug(c: char) -> (s: String)
    ensures
        s@ == char_debug_text(c),
{
    format!("{:?}", c)
}

} // verus!
