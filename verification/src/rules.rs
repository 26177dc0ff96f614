//! The rules of the game as mathematics: the state of a game, the transition
//! that a guess makes, and the predicates that decide a win or a loss.

use vstd::prelude::*;
use crate::letters::{lower, is_lower_seq};

verus! {

/// The symbol shown at every position that has not been revealed yet.
pub const PLACEHOLDER: char = '_';

/// The state of one game.
pub struct GameState {
    /// The word to guess, in lower case; it never changes.
    pub secret: Seq<char>,
    /// The mask shown to the player, as long as `secret`.
    pub display: Seq<char>,
    /// Every letter guessed so far, in lower case.
    pub guessed: Set<char>,
    /// How many of the guessed letters do not occur in `secret`.
    pub mistakes: nat,
    /// The number of mistakes at which the game is lost.
    pub max_mistakes: nat,
    /// A description of the secret, shown to the player.
    pub hint: Seq<char>,
}

/// The mask of `secret` when exactly the letters in `guessed` are known:
/// a position shows its letter if that letter was guessed, else the
/// placeholder.
pub open spec fn mask(secret: Seq<char>, guessed: Set<char>) -> Seq<char> {
    Seq::new(
        secret.len(),
        |i: int| if guessed.contains(secret[i]) { secret[i] } else { PLACEHOLDER },
    )
}

/// `display` with every position of `secret` that holds `letter` revealed.
pub open spec fn uncover(secret: Seq<char>, display: Seq<char>, letter: char) -> Seq<char> {
    Seq::new(secret.len(), |i: int| if secret[i] == letter { letter } else { display[i] })
}

/// The guessed letters that do not occur in `secret`.
pub open spec fn wrong_guesses(secret: Seq<char>, guessed: Set<char>) -> Set<char> {
    guessed.filter(|c: char| !secret.contains(c))
}

/// What holds of every state that a game can be in.
pub open spec fn valid(s: GameState) -> bool {
    &&& s.secret.len() > 0
    &&& s.max_mistakes >= 1
    &&& is_lower_seq(s.secret)
    &&& s.guessed.finite()
    &&& forall|c: char| #[trigger] s.guessed.contains(c) ==> lower(c) == c
    &&& s.display == mask(s.secret, s.guessed)
    &&& s.mistakes == wrong_guesses(s.secret, s.guessed).len()
}

/// The state of a game that has just been created.
pub open spec fn initial(secret: Seq<char>, hint: Seq<char>, max_mistakes: nat) -> GameState {
    GameState {
        secret: secret.map_values(|c: char| lower(c)),
        display: Seq::new(secret.len(), |i: int| PLACEHOLDER),
        guessed: Set::empty(),
        mistakes: 0,
        max_mistakes,
        hint,
    }
}

/// Whether `letter` has not been guessed before in state `s`.
pub open spec fn is_new_guess(s: GameState, letter: char) -> bool {
    !s.guessed.contains(lower(letter))
}

/// Whether `letter` occurs in the secret of state `s`.
pub open spec fn is_correct(s: GameState, letter: char) -> bool {
    s.secret.contains(lower(letter))
}

/// The state after guessing `letter` in state `s`. A repeated guess changes
/// nothing; a new one is recorded, reveals every position that holds the
/// letter, and counts as a mistake if there is no such position.
pub open spec fn step(s: GameState, letter: char) -> GameState {
    let l = lower(letter);
    if s.guessed.contains(l) {
        s
    } else {
        GameState {
            secret: s.secret,
            display: uncover(s.secret, s.display, l),
            guessed: s.guessed.insert(l),
            mistakes: if s.secret.contains(l) { s.mistakes } else { s.mistakes + 1 },
            max_mistakes: s.max_mistakes,
            hint: s.hint,
        }
    }
}

/// The state after guessing the letters of `letters` one after the other.
pub open spec fn play(s: GameState, letters: Seq<char>) -> GameState
    decreases letters.len(),
{
    if letters.len() == 0 {
        s
    } else {
        step(play(s, letters.drop_last()), letters.last())
    }
}

/// The game is won when no position shows the placeholder any more.
pub open spec fn won(s: GameState) -> bool {
    !s.display.contains(PLACEHOLDER)
}

/// The game is lost when the mistakes have reached the limit.
pub open spec fn lost(s: GameState) -> bool {
    s.mistakes >= s.max_mistakes
}

/// The index of the picture that shows `mistakes` mistakes, out of
/// `stage_count` pictures: the mistake count, held to the last picture.
pub open spec fn stage_index(mistakes: nat, stage_count: nat) -> nat {
    if mistakes < stage_count {
        mistakes
    } else {
        (stage_count - 1) as nat
    }
}

} // verus!
