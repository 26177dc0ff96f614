//! Case normalisation of single letters.

use vstd::prelude::*;

verus! {

/// The ASCII lower-case form of a character: `'A'..='Z'` map to
/// `'a'..='z'`, every other character is unchanged.
pub open spec fn lower(c: char) -> char {
    if 0x41 <= c as u32 && c as u32 <= 0x5A {
        ((c as u32) + 0x20) as char
    } else {
        c
    }
}

/// Whether a sequence of characters is already in lower case.
pub open spec fn is_lower_seq(s: Seq<char>) -> bool {
    forall|i: int| 0 <= i < s.len() ==> lower(#[trigger] s[i]) == s[i]
}

/// `char::to_ascii_lowercase` of the standard library: ASCII upper-case
/// letters are mapped to their lower-case equivalents, all other characters
/// are returned unchanged.
pub assume_specification[ char::to_ascii_lowercase ](c: &char) -> (r: char)
    ensures
        r == lower(*c),
;

/// Normalising twice is the same as normalising once.
pub proof fn lemma_lower_idempotent(c: char)
    ensures
        lower(lower(c)) == lower(c),
{
}

} // verus!
