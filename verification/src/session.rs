//! The game session: a fixed five-grapheme target word, an append-only
//! history of accepted guesses (at most six), the wordle-day identifier and
//! the dictionary used for membership validation. The session is `Won` once
//! the most recent accepted guess scores all `Correct`, `Lost` once six
//! guesses are accepted and the sixth did not, and in progress otherwise.

use vstd::prelude::*;

use crate::model::{Errors, LetterClass};
use crate::score::{all_correct, get_colors, grapheme_count, graphemes_of, score_spec};

verus! {

/// A single game of guessing one target word.
pub struct GuessHistory {
    target: String,
    guesses: Vec<String>,
    wordle_day: u64,
    dictionary: Vec<String>,
}

impl GuessHistory {
    #[verifier::type_invariant]
    spec fn wf(self) -> bool {
        &&& graphemes_of(self.target@).len() == 5
        &&& self.guesses@.len() <= 6
        &&& forall|i: int|
            0 <= i < self.guesses@.len() ==> graphemes_of(self.guesses@[i]@).len() == 5
    }

    /// The target word, as its character sequence.
    pub closed spec fn target_word(self) -> Seq<char> {
        self.target@
    }

    /// The accepted guesses, in submission order, each as its character
    /// sequence.
    pub closed spec fn guess_words(self) -> Seq<Seq<char>> {
        self.guesses.deep_view()
    }

    /// The wordle-day identifier this session was created with.
    pub closed spec fn day(self) -> u64 {
        self.wordle_day
    }

    /// The dictionary this session validates candidates against.
    pub closed spec fn dict_words(self) -> Seq<Seq<char>> {
        self.dictionary.deep_view()
    }

    /// The session is won: the most recent accepted guess scores all
    /// `Correct` against the target.
    pub open spec fn spec_won(self) -> bool {
        &&& self.guess_words().len() > 0
        &&& all_correct(
            score_spec(
                graphemes_of(self.target_word()),
                graphemes_of(self.guess_words().last()),
            ),
        )
    }

    /// The session is lost: six guesses were accepted and the sixth did not
    /// score all `Correct`.
    pub open spec fn spec_lost(self) -> bool {
        self.guess_words().len() == 6 && !self.spec_won()
    }

    /// Start a session. The target must consist of exactly five grapheme
    /// clusters; use [`GuessHistory::try_new`] when that is not known.
    pub fn new(target: String, wordle_day: u64, dictionary: Vec<String>) -> (s: GuessHistory)
        requires
            graphemes_of(target@).len() == 5,
        ensures
            s.target_word() == target@,
            s.guess_words() == Seq::<Seq<char>>::empty(),
            s.day() == wordle_day,
            s.dict_words() == dictionary.deep_view(),
    {
        let s = GuessHistory { target, guesses: Vec::new(), wordle_day, dictionary };
        proof {
            assert(s.guess_words() =~= Seq::<Seq<char>>::empty());
        }
        s
    }

    /// Start a session after checking the target's length: `Some` exactly
    /// when the target consists of five grapheme clusters.
    pub fn try_new(target: String, wordle_day: u64, dictionary: Vec<String>) -> (r: Option<
        GuessHistory,
    >)
        ensures
            r is Some <==> graphemes_of(target@).len() == 5,
            (r matches Some(s) ==> {
                &&& s.target_word() == target@
                &&& s.guess_words() == Seq::<Seq<char>>::empty()
                &&& s.day() == wordle_day
                &&& s.dict_words() == dictionary.deep_view()
            }),
    {
        if grapheme_count(target.as_str()) == 5 {
            Some(GuessHistory::new(target, wordle_day, dictionary))
        } else {
            None
        }
    }

    /// Submit a candidate guess. The candidate is rejected when its grapheme
    /// count is not five, when six guesses were already accepted, or when it
    /// is not in the dictionary, in that order of checks; otherwise it is
    /// appended to the history. The history is append-only: a rejection
    /// leaves the session unchanged, an acceptance only extends it.
    pub fn add_guess(&mut self, new_guess: String) -> (r: Result<bool, Errors>)
        ensures
            r is Ok <==> {
                &&& graphemes_of(new_guess@).len() == 5
                &&& old(self).guess_words().len() < 6
                &&& old(self).dict_words().contains(new_guess@)
            },
            (r matches Ok(accepted) ==> accepted),
            r == Err::<bool, Errors>(Errors::InvalidGuessLength) <==> graphemes_of(new_guess@).len()
                != 5,
            r == Err::<bool, Errors>(Errors::GuessLimitExceeded) <==> {
                &&& graphemes_of(new_guess@).len() == 5
                &&& old(self).guess_words().len() >= 6
            },
            r == Err::<bool, Errors>(Errors::NotInDictionary) <==> {
                &&& graphemes_of(new_guess@).len() == 5
                &&& old(self).guess_words().len() < 6
                &&& !old(self).dict_words().contains(new_guess@)
            },
            r is Ok ==> final(self).guess_words() == old(self).guess_words().push(new_guess@),
            r is Err ==> final(self).guess_words() == old(self).guess_words(),
            r is Ok ==> (final(self).spec_won() <==> all_correct(
                score_spec(graphemes_of(old(self).target_word()), graphemes_of(new_guess@)),
            )),
            r is Ok ==> (final(self).spec_lost() <==> {
                &&& old(self).guess_words().len() + 1 == 6
                &&& !final(self).spec_won()
            }),
            final(self).target_word() == old(self).target_word(),
            final(self).day() == old(self).day(),
            final(self).dict_words() == old(self).dict_words(),
    {
        proof {
            use_type_invariant(&*self);
        }
        if grapheme_count(new_guess.as_str()) != 5 {
            return Err(Errors::InvalidGuessLength);
        }
        if self.guesses.len() > 5 {
            return Err(Errors::GuessLimitExceeded);
        }
        if !dict_contains(&self.dictionary, &new_guess) {
            return Err(Errors::NotInDictionary);
        }
        let mut extended: Vec<String> = Vec::new();
        std::mem::swap(&mut extended, &mut self.guesses);
        extended.push(new_guess);
        std::mem::swap(&mut extended, &mut self.guesses);
        proof {
            assert(final(self).guess_words() =~= old(self).guess_words().push(new_guess@));
        }
        Ok(true)
    }

    /// The number of accepted guesses.
    pub fn count(&self) -> (n: usize)
        ensures
            n == self.guess_words().len(),
    {
        self.guesses.len()
    }

    /// The session is in a terminal state: won or lost.
    pub fn is_over(&self) -> (over: bool)
        ensures
            over == (self.spec_won() || self.spec_lost()),
    {
        self.is_failed() || self.is_won()
    }

    /// The most recent accepted guess scores all `Correct`.
    pub fn is_won(&self) -> (won: bool)
        ensures
            won == self.spec_won(),
    {
        proof {
            use_type_invariant(&*self);
        }
        let n = self.count();
        if n == 0 {
            return false;
        }
        match self.get_colors_index(n - 1) {
            Ok(classes) => all_correct_exec(&classes),
            Err(_) => false,
        }
    }

    /// Six guesses were accepted and the sixth did not win.
    pub fn is_failed(&self) -> (lost: bool)
        ensures
            lost == self.spec_lost(),
    {
        self.count() == 6 && !self.is_won()
    }

    /// The accepted guesses, in submission order, for display.
    pub fn guesses(&self) -> (r: &Vec<String>)
        ensures
            r.deep_view() == self.guess_words(),
    {
        &self.guesses
    }

    /// The wordle-day identifier, for statistics display.
    pub fn wordle_day(&self) -> (d: u64)
        ensures
            d == self.day(),
    {
        self.wordle_day
    }

    /// The classification sequence of the accepted guess at `index`,
    /// recomputed against the target.
    pub fn get_colors_index(&self, index: usize) -> (r: Result<Vec<LetterClass>, Errors>)
        requires
            index < self.guess_words().len(),
        ensures
            r is Ok,
            (r matches Ok(classes) ==> classes@ == score_spec(
                graphemes_of(self.target_word()),
                graphemes_of(self.guess_words()[index as int]),
            )),
    {
        proof {
            use_type_invariant(&*self);
        }
        get_colors(self.target.as_str(), self.guesses[index].as_str())
    }
}

/// Whether every classification in `classes` is `Correct`.
fn all_correct_exec(classes: &Vec<LetterClass>) -> (b: bool)
    ensures
        b == all_correct(classes@),
{
    let mut i: usize = 0;
    while i < classes.len()
        invariant
            i <= classes@.len(),
            forall|k: int| 0 <= k < i ==> classes@[k] == LetterClass::Correct,
        decreases classes@.len() - i,
    {
        if !matches!(classes[i], LetterClass::Correct) {
            return false;
        }
        i += 1;
    }
    true
}

/// Whether `word` occurs in `dict`.
fn dict_contains(dict: &Vec<String>, word: &String) -> (b: bool)
    ensures
        b == dict.deep_view().contains(word@),
{
    let mut i: usize = 0;
    while i < dict.len()
        invariant
            i <= dict@.len(),
            forall|k: int| 0 <= k < i ==> dict.deep_view()[k] != word@,
        decreases dict@.len() - i,
    {
        if dict[i] == *word {
            proof {
                assert(dict.deep_view()[i as int] == word@);
            }
            return true;
        }
        proof {
            assert(dict.deep_view()[i as int] == dict@[i as int]@);
        }
        i += 1;
    }
    false
}

} // verus!
