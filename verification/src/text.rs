//! Turning letters into text for display.

use vstd::prelude::*;

verus! {

/// `String::push` of the standard library: appends the character to the
/// end of the string.
pub assume_specification[ String::push ](s: &mut String, c: char)
    ensures
        final(s)@ == old(s)@.push(c),
;

/// The letters of `s` with a single space between neighbours.
pub open spec fn spaced(s: Seq<char>) -> Seq<char> {
    Seq::new(
        if s.len() == 0 {
            0
        } else {
            (2 * s.len() - 1) as nat
        },
        |i: int| if i % 2 == 0 { s[i / 2] } else { ' ' },
    )
}

/// The text made of `letters`.
pub fn text_of(letters: &Vec<char>) -> (text: String)
    ensures
        text@ == letters@,
{
    let mut text = String::new();
    let mut i: usize = 0;
    while i < letters.len()
        invariant
            i <= letters.len(),
            text@ == letters@.take(i as int),
        decreases letters.len() - i,
    {
        text.push(letters[i]);
        assert(letters@.take(i + 1) =~= letters@.take(i as int).push(letters@[i as int]));
        i += 1;
    }
    assert(letters@.take(letters@.len() as int) =~= letters@);
    text
}

/// The text made of `letters`, with a single space between neighbours.
pub fn spaced_text_of(letters: &Vec<char>) -> (text: String)
    ensures
        text@ == spaced(letters@),
{
    let mut text = String::new();
    let mut i: usize = 0;
    while i < letters.len()
        invariant
            i <= letters.len(),
            text@ == spaced(letters@.take(i as int)),
        decreases letters.len() - i,
    {
        if i > 0 {
            text.push(' ');
        }
        text.push(letters[i]);
        assert(text@ =~= spaced(letters@.take(i + 1)));
        i += 1;
    }
    assert(letters@.take(letters@.len() as int) =~= letters@);
    text
}

} // verus!
