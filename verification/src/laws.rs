//! What holds of every game, proved from the rules.

use vstd::prelude::*;
use crate::letters::{lower, lemma_lower_idempotent};
use crate::rules::{
    GameState, PLACEHOLDER, initial, is_correct, is_new_guess, lost, mask, play, step, valid, won,
    wrong_guesses,
};

verus! {

/// The wrong guesses are finitely many, and no more than the guesses.
pub proof fn lemma_wrong_guesses_finite(secret: Seq<char>, guessed: Set<char>)
    requires
        guessed.finite(),
    ensures
        wrong_guesses(secret, guessed).finite(),
        wrong_guesses(secret, guessed).len() <= guessed.len(),
{
    let wrong = wrong_guesses(secret, guessed);
    assert(wrong.subset_of(guessed));
    vstd::set_lib::lemma_len_subset(wrong, guessed);
}

/// A game that has just been created is in a valid state, and is neither
/// won nor lost.
pub proof fn law_fresh_game_is_open(secret: Seq<char>, hint: Seq<char>, max_mistakes: nat)
    requires
        secret.len() > 0,
        max_mistakes >= 1,
    ensures
        valid(initial(secret, hint, max_mistakes)),
        !won(initial(secret, hint, max_mistakes)),
        !lost(initial(secret, hint, max_mistakes)),
{
    let s = initial(secret, hint, max_mistakes);
    assert forall|i: int| 0 <= i < s.secret.len() implies lower(#[trigger] s.secret[i])
        == s.secret[i] by {
        lemma_lower_idempotent(secret[i]);
    }
    assert(s.display =~= mask(s.secret, s.guessed));
    assert(wrong_guesses(s.secret, s.guessed) =~= Set::<char>::empty());
    assert(s.display[0] == PLACEHOLDER);
}

/// A guess leads from a valid state to a valid state.
pub proof fn law_step_keeps_valid(s: GameState, letter: char)
    requires
        valid(s),
    ensures
        valid(step(s, letter)),
{
    let l = lower(letter);
    let t = step(s, letter);
    lemma_lower_idempotent(letter);
    if !s.guessed.contains(l) {
        assert(t.display =~= mask(t.secret, t.guessed));
        lemma_wrong_guesses_finite(s.secret, s.guessed);
        let wrong = wrong_guesses(s.secret, s.guessed);
        if s.secret.contains(l) {
            assert(wrong_guesses(t.secret, t.guessed) =~= wrong);
        } else {
            assert(wrong_guesses(t.secret, t.guessed) =~= wrong.insert(l));
        }
    }
}

/// Guessing the same letter twice in a row: the second guess is not new and
/// changes nothing.
pub proof fn law_repeated_guess_changes_nothing(s: GameState, letter: char)
    ensures
        !is_new_guess(step(s, letter), letter),
        step(step(s, letter), letter) == step(s, letter),
        is_correct(step(s, letter), letter) == is_correct(s, letter),
{
}

/// A guess never lowers the mistake count, never forgets a guessed letter,
/// and never hides a position that was revealed.
pub proof fn law_step_monotone(s: GameState, letter: char)
    requires
        valid(s),
    ensures
        step(s, letter).mistakes >= s.mistakes,
        s.guessed.subset_of(step(s, letter).guessed),
        step(s, letter).display.len() == s.display.len(),
        forall|i: int|
            0 <= i < s.display.len() && s.display[i] != PLACEHOLDER ==> #[trigger] step(
                s,
                letter,
            ).display[i] == s.display[i],
{
}

/// The same over any number of guesses.
pub proof fn law_play_monotone(s: GameState, letters: Seq<char>)
    requires
        valid(s),
    ensures
        valid(play(s, letters)),
        play(s, letters).secret == s.secret,
        play(s, letters).max_mistakes == s.max_mistakes,
        play(s, letters).hint == s.hint,
        play(s, letters).mistakes >= s.mistakes,
        s.guessed.subset_of(play(s, letters).guessed),
        play(s, letters).display.len() == s.display.len(),
        forall|i: int|
            0 <= i < s.display.len() && s.display[i] != PLACEHOLDER ==> #[trigger] play(
                s,
                letters,
            ).display[i] == s.display[i],
    decreases letters.len(),
{
    if letters.len() > 0 {
        let before = play(s, letters.drop_last());
        law_play_monotone(s, letters.drop_last());
        law_step_keeps_valid(before, letters.last());
        law_step_monotone(before, letters.last());
    }
}

/// A guess reveals the guessed letter at every position of the secret that
/// holds it, and leaves every other position of the mask as it was.
pub proof fn law_guess_reveals(s: GameState, letter: char)
    requires
        valid(s),
    ensures
        step(s, letter).display.len() == s.secret.len(),
        forall|i: int|
            0 <= i < s.secret.len() && s.secret[i] == lower(letter) ==> #[trigger] step(
                s,
                letter,
            ).display[i] == s.secret[i],
        forall|i: int|
            0 <= i < s.secret.len() && s.secret[i] != lower(letter) ==> #[trigger] step(
                s,
                letter,
            ).display[i] == s.display[i],
{
}

/// When the secret does not itself hold the placeholder, the game is won
/// exactly when every letter of the secret has been guessed.
pub proof fn law_win(s: GameState)
    requires
        valid(s),
        !s.secret.contains(PLACEHOLDER),
    ensures
        won(s) <==> (forall|i: int| 0 <= i < s.secret.len() ==> s.guessed.contains(s.secret[i])),
{
    if won(s) {
        assert forall|i: int| 0 <= i < s.secret.len() implies s.guessed.contains(
            s.secret[i],
        ) by {
            assert(s.display.contains(s.display[i]));
        }
    }
    if forall|i: int| 0 <= i < s.secret.len() ==> s.guessed.contains(s.secret[i]) {
        assert forall|i: int| 0 <= i < s.display.len() implies s.display[i] != PLACEHOLDER by {
            assert(s.guessed.contains(s.secret[i]));
            assert(s.secret.contains(s.secret[i]));
        }
    }
}

/// The mistakes are the guessed letters that the secret does not hold, so
/// the game is lost exactly when there are `max_mistakes` of them or more.
pub proof fn law_loss(s: GameState)
    requires
        valid(s),
    ensures
        lost(s) <==> wrong_guesses(s.secret, s.guessed).len() >= s.max_mistakes,
{
}

/// After any guesses from a fresh game, the guessed letters are the letters
/// that were tried, in lower case, and the mistakes are those among them
/// that the secret does not hold: with `max_mistakes` distinct wrong
/// letters the game is lost.
pub proof fn law_loss_after_wrong_guesses(
    secret: Seq<char>,
    hint: Seq<char>,
    max_mistakes: nat,
    letters: Seq<char>,
)
    requires
        secret.len() > 0,
        max_mistakes >= 1,
    ensures
        ({
            let end = play(initial(secret, hint, max_mistakes), letters);
            let tried = letters.map_values(|c: char| lower(c)).to_set();
            &&& end.guessed == tried
            &&& end.mistakes == wrong_guesses(end.secret, tried).len()
            &&& wrong_guesses(end.secret, tried).len() >= max_mistakes ==> lost(end)
        }),
    decreases letters.len(),
{
    let start = initial(secret, hint, max_mistakes);
    let end = play(start, letters);
    let tried = letters.map_values(|c: char| lower(c)).to_set();
    law_fresh_game_is_open(secret, hint, max_mistakes);
    law_play_monotone(start, letters);
    if letters.len() == 0 {
        assert(tried =~= Set::<char>::empty());
    } else {
        let front = letters.drop_last();
        law_loss_after_wrong_guesses(secret, hint, max_mistakes, front);
        let tried_front = front.map_values(|c: char| lower(c)).to_set();
        let lowered = letters.map_values(|c: char| lower(c));
        let lowered_front = front.map_values(|c: char| lower(c));
        assert(lowered_front =~= lowered.drop_last());
        assert(lowered =~= lowered_front.push(lower(letters.last())));
        assert forall|c: char| tried.contains(c) <==> tried_front.insert(
            lower(letters.last()),
        ).contains(c) by {
            if tried.contains(c) {
                let i = choose|i: int| 0 <= i < lowered.len() && lowered[i] == c;
                if i < lowered_front.len() {
                    assert(lowered_front[i] == c);
                    assert(lowered_front.contains(c));
                }
            }
            if tried_front.contains(c) {
                let i = choose|i: int| 0 <= i < lowered_front.len() && lowered_front[i] == c;
                assert(lowered[i] == c);
            }
            if c == lower(letters.last()) {
                assert(lowered[lowered.len() - 1] == c);
            }
        }
        assert(tried =~= tried_front.insert(lower(letters.last())));
        assert(end.guessed =~= tried);
    }
}

/// While the game is not lost, a guess keeps the mistakes within the limit.
pub proof fn law_mistakes_within_limit(s: GameState, letter: char)
    requires
        valid(s),
        !lost(s),
    ensures
        step(s, letter).mistakes <= s.max_mistakes,
{
}

/// A single guess in an open game cannot both win and lose it.
pub proof fn law_guess_ends_one_way(s: GameState, letter: char)
    requires
        valid(s),
        !won(s),
        !lost(s),
    ensures
        !(won(step(s, letter)) && lost(step(s, letter))),
{
    let l = lower(letter);
    let t = step(s, letter);
    if !s.guessed.contains(l) && !s.secret.contains(l) {
        let i = choose|i: int| 0 <= i < s.display.len() && s.display[i] == PLACEHOLDER;
        assert(t.display[i] == PLACEHOLDER);
    }
}

} // verus!
