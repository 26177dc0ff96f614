//! The game engine: one secret word, the mask shown to the player, the
//! letters guessed so far and the mistakes made.

use vstd::prelude::*;
use crate::letters::lower;
use crate::rules::{
    GameState, PLACEHOLDER, initial, is_correct, is_new_guess, lost, stage_index, step, uncover,
    valid, won,
};
use crate::text::{spaced, spaced_text_of, text_of};

verus! {

/// Whether `letter` occurs in `letters`.
fn holds_letter(letters: &Vec<char>, letter: char) -> (found: bool)
    ensures
        found == letters@.contains(letter),
{
    let mut i: usize = 0;
    while i < letters.len()
        invariant
            i <= letters.len(),
            forall|j: int| 0 <= j < i ==> letters@[j] != letter,
        decreases letters.len() - i,
    {
        if letters[i] == letter {
            return true;
        }
        i += 1;
    }
    false
}

/// One game of guessing a secret word, letter by letter.
pub struct Hangman {
    word: Vec<char>,
    display: Vec<char>,
    guessed: Vec<char>,
    max_mistakes: usize,
    mistakes: usize,
    description: String,
}

impl View for Hangman {
    type V = GameState;

    closed spec fn view(&self) -> GameState {
        GameState {
            secret: self.word@,
            display: self.display@,
            guessed: self.guessed@.to_set(),
            mistakes: self.mistakes as nat,
            max_mistakes: self.max_mistakes as nat,
            hint: self.description@,
        }
    }
}

impl Hangman {
    /// The guessed letters are stored in the order of their first guess,
    /// each of them once.
    pub closed spec fn inv(&self) -> bool {
        self.guessed@.no_duplicates()
    }

    /// The engine is well formed: its state is one that a game can be in.
    pub open spec fn wf(&self) -> bool {
        self.inv() && valid(self@)
    }

    /// Starts a game on `secret`, which is put in lower case, with nothing
    /// guessed and no mistake made.
    pub fn new(secret: String, description: String, max_mistakes: usize) -> (game: Hangman)
        requires
            secret@.len() > 0,
            max_mistakes >= 1,
        ensures
            game.wf(),
            game@ == initial(secret@, description@, max_mistakes as nat),
            !won(game@),
            !lost(game@),
    {
        let mut word: Vec<char> = Vec::new();
        let mut display: Vec<char> = Vec::new();
        for c in it: secret.as_str().chars()
            invariant
                it.seq() == secret@,
                word@ == secret@.take(it.index() as int).map_values(|c: char| lower(c)),
                display@ == Seq::new(it.index() as nat, |i: int| PLACEHOLDER),
        {
            word.push(c.to_ascii_lowercase());
            display.push(PLACEHOLDER);
        }
        let game = Hangman {
            word,
            display,
            guessed: Vec::new(),
            max_mistakes,
            mistakes: 0,
            description,
        };
        proof {
            assert(secret@.take(secret@.len() as int) =~= secret@);
            assert(game@.guessed =~= Set::<char>::empty());
            assert(game@ == initial(secret@, description@, max_mistakes as nat));
            crate::laws::law_fresh_game_is_open(secret@, description@, max_mistakes as nat);
        }
        game
    }

    /// Starts a game as `new` does, or refuses to: a game needs a secret
    /// that is not empty and room for at least one mistake.
    pub fn try_new(secret: String, description: String, max_mistakes: usize) -> (game: Option<
        Hangman,
    >)
        ensures
            game is Some <==> secret@.len() > 0 && max_mistakes >= 1,
            game is Some ==> game.unwrap().wf() && game.unwrap()@ == initial(
                secret@,
                description@,
                max_mistakes as nat,
            ),
    {
        if secret.as_str().is_empty() || max_mistakes == 0 {
            None
        } else {
            Some(Hangman::new(secret, description, max_mistakes))
        }
    }

    /// Guesses `ch`, in either case. Returns whether the letter is guessed
    /// for the first time, and whether the secret holds it. A first guess
    /// is recorded, reveals every position of the secret that holds the
    /// letter, and counts as a mistake if there is none; a repeated guess
    /// changes nothing.
    pub fn guess(&mut self, ch: char) -> (r: (bool, bool))
        requires
            old(self).wf(),
        ensures
            final(self).wf(),
            final(self)@ == step(old(self)@, ch),
            r.0 == is_new_guess(old(self)@, ch),
            r.1 == is_correct(old(self)@, ch),
    {
        let ch = ch.to_ascii_lowercase();
        if holds_letter(&self.guessed, ch) {
            return (false, holds_letter(&self.word, ch));
        }
        proof {
            self.guessed@.unique_seq_to_set();
            crate::laws::lemma_wrong_guesses_finite(self.word@, self.guessed@.to_set());
            crate::laws::law_step_keeps_valid(self@, ch);
            crate::letters::lemma_lower_idempotent(ch);
        }
        self.guessed.push(ch);
        proof {
            let before = old(self).guessed@;
            let after = self.guessed@;
            assert forall|c: char| after.contains(c) <==> before.contains(c) || c == ch by {
                if before.contains(c) {
                    let k = choose|k: int| 0 <= k < before.len() && before[k] == c;
                    assert(after[k] == c);
                }
                if c == ch {
                    assert(after[after.len() - 1] == c);
                }
            }
            assert(after.to_set() =~= before.to_set().insert(ch));
        }

        let mut correct = false;
        let mut i: usize = 0;
        while i < self.word.len()
            invariant
                i <= self.word.len(),
                self.word == old(self).word,
                self.guessed@ == old(self).guessed@.push(ch),
                self.max_mistakes == old(self).max_mistakes,
                self.mistakes == old(self).mistakes,
                self.mistakes < self.guessed@.len(),
                self.description == old(self).description,
                self.display@.len() == self.word@.len(),
                old(self).display@.len() == self.word@.len(),
                forall|j: int|
                    0 <= j < i ==> self.display@[j] == uncover(
                        self.word@,
                        old(self).display@,
                        ch,
                    )[j],
                forall|j: int| i <= j < self.word@.len() ==> self.display@[j] == old(self).display@[j],
                correct <==> exists|j: int| 0 <= j < i && #[trigger] self.word@[j] == ch,
            decreases self.word.len() - i,
        {
            if self.word[i] == ch {
                self.display.set(i, ch);
                correct = true;
                assert(self.word@[i as int] == ch);
            }
            i += 1;
        }
        assert(self.display@ =~= uncover(self.word@, old(self).display@, ch));
        if !correct {
            assert(self.mistakes < self.guessed.len());
            self.mistakes += 1;
        }
        (true, correct)
    }

    /// Whether the game is won: no position of the mask shows the
    /// placeholder.
    pub fn is_won(&self) -> (b: bool)
        ensures
            b == won(self@),
    {
        !holds_letter(&self.display, PLACEHOLDER)
    }

    /// Whether the game is lost: the mistakes have reached the limit.
    pub fn is_lost(&self) -> (b: bool)
        ensures
            b == lost(self@),
    {
        self.mistakes >= self.max_mistakes
    }

    /// The mask as text: one character for each position of the secret.
    pub fn display(&self) -> (text: String)
        ensures
            text@ == self@.display,
    {
        text_of(&self.display)
    }

    /// The mask as text, with a space between neighbouring positions.
    pub fn display_spaced(&self) -> (text: String)
        ensures
            text@ == spaced(self@.display),
    {
        spaced_text_of(&self.display)
    }

    /// The secret word, in lower case.
    pub fn secret(&self) -> (text: String)
        ensures
            text@ == self@.secret,
    {
        text_of(&self.word)
    }

    /// The description of the secret that the game was created with.
    pub fn hint(&self) -> (text: &str)
        ensures
            text@ == self@.hint,
    {
        self.description.as_str()
    }

    /// The letters guessed so far, each of them once, in the order of their
    /// first guess.
    pub fn guessed_letters(&self) -> (letters: &Vec<char>)
        ensures
            letters@.to_set() == self@.guessed,
            self.wf() ==> letters@.no_duplicates(),
    {
        &self.guessed
    }

    /// The number of mistakes made so far.
    pub fn mistakes(&self) -> (n: usize)
        ensures
            n == self@.mistakes,
    {
        self.mistakes
    }

    /// The number of mistakes at which the game is lost.
    pub fn max_mistakes(&self) -> (n: usize)
        ensures
            n == self@.max_mistakes,
    {
        self.max_mistakes
    }

    /// The index of the picture to show for the mistakes made so far, out
    /// of `stage_count` pictures.
    pub fn stage_index(&self, stage_count: usize) -> (index: usize)
        requires
            stage_count >= 1,
        ensures
            index == stage_index(self@.mistakes, stage_count as nat),
            index < stage_count,
    {
        if self.mistakes < stage_count {
            self.mistakes
        } else {
            stage_count - 1
        }
    }
}

} // verus!
