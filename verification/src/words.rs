//! Picking the secret word of a game from a list of words with their
//! descriptions.

use vstd::prelude::*;
use rand::seq::SliceRandom;

verus! {

/// `SliceRandom::choose` of the `rand` crate, on the thread-local generator
/// that `rand::thread_rng` returns: `None` for an empty list, else a
/// reference to one of its entries. Which entry it is depends on the
/// generator, so nothing more is claimed of it. The generator is seeded by
/// the system on first use in a thread, and `rand` panics if that fails.
#[verifier::external_body]
fn choose_entry<'a>(word_list: &'a [(&'a str, &'a str)]) -> (entry: Option<&'a (&'a str, &'a str)>)
    ensures
        word_list@.len() == 0 ==> entry is None,
        word_list@.len() > 0 ==> entry is Some && word_list@.contains(*entry.unwrap()),
{
    word_list.choose(&mut rand::thread_rng())
}

/// Whether `pair` is the owned copy of some entry of `word_list`.
pub open spec fn is_entry_of(pair: (String, String), word_list: Seq<(&str, &str)>) -> bool {
    exists|i: int|
        0 <= i < word_list.len() && pair.0@ == (#[trigger] word_list[i]).0@ && pair.1@
            == word_list[i].1@
}

/// An owned copy of a word and its description.
pub fn owned_entry(entry: &(&str, &str)) -> (pair: (String, String))
    ensures
        pair.0@ == entry.0@,
        pair.1@ == entry.1@,
{
    (entry.0.to_string(), entry.1.to_string())
}

/// Picks a word and its description at random from `word_list`, or nothing
/// if the list is empty.
pub fn try_pick_random_word(word_list: &[(&str, &str)]) -> (picked: Option<(String, String)>)
    ensures
        picked is None <==> word_list@.len() == 0,
        picked is Some ==> is_entry_of(picked.unwrap(), word_list@),
{
    match choose_entry(word_list) {
        Some(entry) => {
            let pair = owned_entry(entry);
            proof {
                let i = choose|i: int| 0 <= i < word_list@.len() && word_list@[i] == *entry;
                assert(pair.0@ == word_list@[i].0@ && pair.1@ == word_list@[i].1@);
            }
            Some(pair)
        },
        None => None,
    }
}

/// Picks a word and its description at random from a list that is not
/// empty.
pub fn pick_random_word(word_list: &[(&str, &str)]) -> (pair: (String, String))
    requires
        word_list@.len() > 0,
    ensures
        is_entry_of(pair, word_list@),
{
    let picked = try_pick_random_word(word_list);
    picked.unwrap()
}

} // verus!
