//! Core of a terminal word-guessing game: a letter-by-letter guess scorer
//! and the session state machine that tracks accepted guesses and decides
//! win and loss, both verified. Word length and letter positions are counted
//! in grapheme clusters, so non-ASCII alphabets behave as a player expects.

pub mod model;
pub mod score;
pub mod session;
