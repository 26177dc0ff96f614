//! Reading what the player typed as a guess.

use vstd::prelude::*;

verus! {

/// What a line typed by the player means.
#[derive(Clone, Copy, Debug, PartialEq, Eq, Structural)]
pub enum LetterInput {
    /// The player wants to stop.
    Quit,
    /// The player guesses this letter.
    Letter(char),
    /// The line is neither of the two.
    Invalid,
}

/// The character that stands for leaving the game.
pub const QUIT_MARK: char = '!';

/// What `str::trim` returns for a string with these characters.
pub uninterp spec fn trimmed(text: Seq<char>) -> Seq<char>;

/// What `str::to_lowercase` returns for a string with these characters.
pub uninterp spec fn lowercased(text: Seq<char>) -> Seq<char>;

/// What `char::is_alphabetic` returns for this character.
pub uninterp spec fn alphabetic(c: char) -> bool;

/// `str::trim` of the standard library: the string without its leading and
/// trailing whitespace. The result is a function of the characters alone;
/// it is named, not spelled out.
pub assume_specification[ str::trim ](s: &str) -> (r: &str)
    ensures
        r@ == trimmed(s@),
;

/// `str::to_lowercase` of the standard library: the lower-case equivalent
/// of the string, by the Unicode rules. The result is a function of the
/// characters alone; it is named, not spelled out.
pub assume_specification[ str::to_lowercase ](s: &str) -> (r: String)
    ensures
        r@ == lowercased(s@),
;

/// `char::is_alphabetic` of the standard library: whether the character has
/// the Unicode property `Alphabetic`. The result is a function of the
/// character alone; it is named, not spelled out.
pub assume_specification[ char::is_alphabetic ](c: char) -> (r: bool)
    ensures
        r == alphabetic(c),
;

/// The meaning of a line whose text, trimmed and in lower case, is `text`,
/// where `letter` says whether its first character is a letter.
pub open spec fn meaning(text: Seq<char>, letter: bool) -> LetterInput {
    if text.len() == 1 && text[0] == QUIT_MARK {
        LetterInput::Quit
    } else if text.len() == 1 && letter {
        LetterInput::Letter(text[0])
    } else {
        LetterInput::Invalid
    }
}

/// The meaning of the line `line` as the player typed it.
pub open spec fn meaning_of_line(line: Seq<char>) -> LetterInput {
    let text = lowercased(trimmed(line));
    meaning(text, text.len() == 1 && alphabetic(text[0]))
}

/// Decides what a trimmed, lower-case `text` means: the quit mark alone
/// asks to stop, a single letter is a guess, anything else is invalid.
/// `letter` says whether the first character of `text` is a letter.
pub fn interpret(text: &str, letter: bool) -> (input: LetterInput)
    ensures
        input == meaning(text@, letter),
{
    if text.unicode_len() != 1 {
        return LetterInput::Invalid;
    }
    let c = text.get_char(0);
    if c == QUIT_MARK {
        LetterInput::Quit
    } else if letter {
        LetterInput::Letter(c)
    } else {
        LetterInput::Invalid
    }
}

/// Reads a line typed by the player: surrounding whitespace and case are
/// ignored; the quit mark alone asks to stop, a single alphabetic character
/// is a guess, anything else is invalid.
pub fn parse_letter(line: &str) -> (input: LetterInput)
    ensures
        input == meaning_of_line(line@),
{
    let text = line.trim().to_lowercase();
    let letter = text.as_str().unicode_len() == 1 && text.as_str().get_char(0).is_alphabetic();
    interpret(text.as_str(), letter)
}

} // verus!
