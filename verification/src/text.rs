//! Comparing pieces of text.

use vstd::prelude::*;

verus! {

/// Equality of string slices, `<str as PartialEq>::eq` of the standard
/// library: two slices are equal exactly when they hold the same characters.
pub assume_specification[ <str as PartialEq>::eq ](a: &str, b: &str) -> (same: bool)
    ensures
        same == (a@ == b@),
;

/// A character with an ASCII capital letter turned into its small letter.
pub open spec fn ascii_lower(c: char) -> char {
    if 'A' <= c <= 'Z' {
        ((c as u8 + 32) as u8) as char
    } else {
        c
    }
}

/// Whether two texts are the same but for the case of their ASCII letters.
pub open spec fn same_but_for_ascii_case(a: Seq<char>, b: Seq<char>) -> bool {
    &&& a.len() == b.len()
    &&& forall|i: int| 0 <= i < a.len() ==> ascii_lower(#[trigger] a[i]) == ascii_lower(b[i])
}

/// `str::eq_ignore_ascii_case` of the standard library: whether two slices
/// match when the ASCII letters of both are taken as small letters.
pub assume_specification[ str::eq_ignore_ascii_case ](a: &str, b: &str) -> (same: bool)
    ensures
        same == same_but_for_ascii_case(a@, b@),
;

/// Whether two string slices hold the same characters.
pub fn same_text(a: &str, b: &str) -> (same: bool)
    ensures
        same == (a@ == b@),
{
    a.eq(b)
}

} // verus!
