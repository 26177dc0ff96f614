use hangman::game::Hangman;
use hangman::words::{owned_entry, pick_random_word, try_pick_random_word};

const WORDS: &[(&str, &str)] = &[
    ("paris", "The capital of France."),
    ("tokyo", "The capital of Japan."),
    ("nile", "The longest river in Africa."),
];

#[test]
fn picked_word_is_an_entry_of_the_list() {
    for _ in 0..200 {
        let (word, hint) = pick_random_word(WORDS);
        assert!(WORDS.iter().any(|(w, h)| *w == word && *h == hint));
    }
}

#[test]
fn every_entry_can_be_picked() {
    let mut seen = [false; 3];
    for _ in 0..2000 {
        let (word, _) = pick_random_word(WORDS);
        let at = WORDS.iter().position(|(w, _)| *w == word).unwrap();
        seen[at] = true;
    }
    assert_eq!(seen, [true, true, true]);
}

#[test]
fn single_entry_is_always_picked() {
    let list: &[(&str, &str)] = &[("guitar", "A musical instrument with six strings.")];
    assert_eq!(
        pick_random_word(list),
        ("guitar".to_string(), "A musical instrument with six strings.".to_string())
    );
}

#[test]
fn nothing_is_picked_from_an_empty_list() {
    let list: &[(&str, &str)] = &[];
    assert_eq!(try_pick_random_word(list), None);
    assert!(try_pick_random_word(WORDS).is_some());
}

#[test]
fn owned_entry_copies_word_and_description() {
    assert_eq!(
        owned_entry(&("nile", "The longest river in Africa.")),
        ("nile".to_string(), "The longest river in Africa.".to_string())
    );
}

#[test]
fn picked_word_starts_a_game() {
    let (word, hint) = pick_random_word(WORDS);
    let g = Hangman::new(word.clone(), hint.clone(), 6);
    assert_eq!(g.secret(), word);
    assert_eq!(g.hint(), hint);
    assert!(!g.is_won());
    assert!(!g.is_lost());
}
