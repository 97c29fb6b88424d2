//! Shared value types of the game core: the per-position verdict on a guess
//! letter, the error taxonomy of the core, the word list used for membership
//! checks, and the dictionary-cache refresh policy.

use vstd::prelude::*;

verus! {

/// Per-position verdict comparing a guess letter to the target word.
#[derive(Clone, Copy, PartialEq, Eq, Structural, Debug)]
pub enum LetterClass {
    /// The letter occupies the same position in the target.
    Correct,
    /// The letter occurs in the target, but not at this position.
    Present,
    /// The letter does not occur in the target at all.
    Absent,
}

/// Errors that the game core returns to its caller. All are recoverable:
/// the caller may obtain a new candidate and retry.
#[derive(Clone, Copy, PartialEq, Eq, Structural, Debug)]
pub enum Errors {
    /// A submission was attempted after six guesses were already recorded.
    GuessLimitExceeded,
    /// Target and guess had different lengths during scoring.
    LengthMismatch,
    /// The candidate's grapheme count is not five.
    InvalidGuessLength,
    /// The candidate is not present in the dictionary.
    NotInDictionary,
}

/// The list of valid words a session checks candidate guesses against.
pub struct Dictionary {
    pub words: Vec<String>,
}

impl Default for Dictionary {
    /// An empty word list.
    fn default() -> (d: Dictionary)
        ensures
            d.words@.len() == 0,
    {
        Dictionary { words: Vec::new() }
    }
}

/// Refresh policy for the locally cached dictionary: the cache is stale once
/// it is older than seven days.
pub fn cache_is_stale(elapsed_secs: u64) -> (stale: bool)
    ensures
        stale == (elapsed_secs > 60 * 60 * 24 * 7),
{
    elapsed_secs > 60 * 60 * 24 * 7
}

} // verus!
