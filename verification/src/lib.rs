//! A word-guessing game engine: the secret word, the revealed mask, the set
//! of guessed letters and the mistake counter, with the rules that move this
//! state on each guess and decide a win or a loss.

pub mod letters;
pub mod rules;
pub mod laws;
pub mod text;
pub mod game;
pub mod input;
pub mod words;
