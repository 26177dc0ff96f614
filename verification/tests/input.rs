use hangman::input::{interpret, parse_letter, LetterInput};

#[test]
fn quit_mark_alone_asks_to_stop() {
    assert_eq!(parse_letter("!"), LetterInput::Quit);
    assert_eq!(parse_letter("  !\n"), LetterInput::Quit);
    assert_eq!(parse_letter("!!"), LetterInput::Invalid);
}

#[test]
fn single_letter_is_a_guess() {
    assert_eq!(parse_letter("a"), LetterInput::Letter('a'));
    assert_eq!(parse_letter("z\n"), LetterInput::Letter('z'));
    assert_eq!(parse_letter("é"), LetterInput::Letter('é'));
}

#[test]
fn surrounding_whitespace_is_ignored() {
    assert_eq!(parse_letter("  a  "), LetterInput::Letter('a'));
    assert_eq!(parse_letter("\tq\r\n"), LetterInput::Letter('q'));
}

#[test]
fn letters_are_read_in_lower_case() {
    assert_eq!(parse_letter("A"), LetterInput::Letter('a'));
    assert_eq!(parse_letter(" Q\n"), LetterInput::Letter('q'));
    assert_eq!(parse_letter("É"), LetterInput::Letter('é'));
}

#[test]
fn anything_else_is_invalid() {
    assert_eq!(parse_letter(""), LetterInput::Invalid);
    assert_eq!(parse_letter("   \n"), LetterInput::Invalid);
    assert_eq!(parse_letter("ab"), LetterInput::Invalid);
    assert_eq!(parse_letter("a b"), LetterInput::Invalid);
    assert_eq!(parse_letter("1"), LetterInput::Invalid);
    assert_eq!(parse_letter("-"), LetterInput::Invalid);
    assert_eq!(parse_letter("_"), LetterInput::Invalid);
}

#[test]
fn letter_whose_lower_case_is_longer_is_invalid() {
    // U+0130 lowers to two characters.
    assert_eq!(parse_letter("\u{130}"), LetterInput::Invalid);
}

#[test]
fn interpret_decides_from_text_and_letter_flag() {
    assert_eq!(interpret("!", false), LetterInput::Quit);
    assert_eq!(interpret("!", true), LetterInput::Quit);
    assert_eq!(interpret("a", true), LetterInput::Letter('a'));
    assert_eq!(interpret("a", false), LetterInput::Invalid);
    assert_eq!(interpret("", false), LetterInput::Invalid);
    assert_eq!(interpret("", true), LetterInput::Invalid);
    assert_eq!(interpret("ab", true), LetterInput::Invalid);
    assert_eq!(interpret("é", true), LetterInput::Letter('é'));
}
