//! The guess scorer: given a target word and a candidate word, both of
//! exactly five grapheme clusters, produce one [`LetterClass`] per guess
//! position. A position is `Correct` when the target holds the same grapheme
//! at that position, `Present` when the grapheme occurs anywhere in the
//! target, and `Absent` otherwise. Each occurrence test re-scans the whole
//! target independently: `Present` markings are not capped by how often the
//! letter occurs in the target.

use vstd::prelude::*;

use crate::model::{Errors, LetterClass};
use unicode_segmentation::UnicodeSegmentation;

verus! {

/// The extended grapheme clusters of a string, in order. The segmentation is
/// computed by an outside crate; it depends on the characters alone.
pub uninterp spec fn graphemes_of(s: Seq<char>) -> Seq<Seq<char>>;

/// Relies on unicode_segmentation::UnicodeSegmentation::graphemes, which
/// splits a string into its extended grapheme clusters; the result depends
/// on the string's characters alone.
#[verifier::external_body]
fn split_graphemes(s: &str) -> (r: Vec<String>)
    ensures
        r.deep_view() == graphemes_of(s@),
{
    UnicodeSegmentation::graphemes(s, true).map(|g| g.to_string()).collect()
}

/// The number of grapheme clusters (user-perceived characters) in `s`.
pub fn grapheme_count(s: &str) -> (n: usize)
    ensures
        n == graphemes_of(s@).len(),
{
    let graphemes = split_graphemes(s);
    graphemes.len()
}

/// The guess grapheme `g` occurs somewhere in the target `t`.
pub open spec fn letter_in_target(t: Seq<Seq<char>>, g: Seq<char>) -> bool {
    exists|j: int| 0 <= j < t.len() && t[j] == g
}

/// Verdict for position `i` of the guess `g` against the target `t`.
pub open spec fn classify(t: Seq<Seq<char>>, g: Seq<Seq<char>>, i: int) -> LetterClass {
    if letter_in_target(t, g[i]) {
        if t[i] == g[i] {
            LetterClass::Correct
        } else {
            LetterClass::Present
        }
    } else {
        LetterClass::Absent
    }
}

/// The full classification sequence: one verdict per guess position.
pub open spec fn score_spec(t: Seq<Seq<char>>, g: Seq<Seq<char>>) -> Seq<LetterClass> {
    Seq::new(g.len(), |i: int| classify(t, g, i))
}

/// Every position of the classification sequence is `Correct`.
pub open spec fn all_correct(s: Seq<LetterClass>) -> bool {
    forall|i: int| 0 <= i < s.len() ==> s[i] == LetterClass::Correct
}

/// Score `needle` against `target`. Both words must consist of exactly five
/// grapheme clusters; otherwise the scorer reports a length mismatch.
pub fn get_colors(target: &str, needle: &str) -> (r: Result<Vec<LetterClass>, Errors>)
    ensures
        r is Ok <==> (graphemes_of(target@).len() == 5 && graphemes_of(needle@).len() == 5),
        (r matches Ok(v) ==> v@ == score_spec(graphemes_of(target@), graphemes_of(needle@))),
        r is Err ==> r == Err::<Vec<LetterClass>, Errors>(Errors::LengthMismatch),
{
    let tg = split_graphemes(target);
    let ng = split_graphemes(needle);
    if tg.len() != ng.len() || tg.len() != 5 || ng.len() != 5 {
        return Err(Errors::LengthMismatch);
    }
    let ghost t = graphemes_of(target@);
    let ghost g = graphemes_of(needle@);
    let mut result: Vec<LetterClass> = Vec::new();
    let mut i: usize = 0;
    while i < 5
        invariant
            tg.deep_view() == t,
            ng.deep_view() == g,
            tg@.len() == 5,
            ng@.len() == 5,
            i <= 5,
            result@.len() == i,
            forall|k: int| 0 <= k < i ==> result@[k] == classify(t, g, k),
        decreases 5 - i,
    {
        let mut found = false;
        let mut j: usize = 0;
        while j < 5
            invariant
                tg.deep_view() == t,
                ng.deep_view() == g,
                tg@.len() == 5,
                ng@.len() == 5,
                i < 5,
                j <= 5,
                found == exists|jj: int| 0 <= jj < j && t[jj] == g[i as int],
            decreases 5 - j,
        {
            proof {
                assert(t[j as int] == tg@[j as int]@);
                assert(g[i as int] == ng@[i as int]@);
            }
            if tg[j] == ng[i] {
                found = true;
            }
            j += 1;
        }
        let class = if found {
            if tg[i] == ng[i] {
                LetterClass::Correct
            } else {
                LetterClass::Present
            }
        } else {
            LetterClass::Absent
        };
        proof {
            assert(t[i as int] == tg@[i as int]@);
            assert(g[i as int] == ng@[i as int]@);
        }
        result.push(class);
        i += 1;
    }
    proof {
        assert(result@ =~= score_spec(t, g));
    }
    Ok(result)
}

/// A guess equal to the target scores `Correct` at every position.
pub proof fn lemma_self_guess_all_correct(t: Seq<Seq<char>>)
    requires
        t.len() == 5,
    ensures
        all_correct(score_spec(t, t)),
{
    assert forall|i: int| 0 <= i < score_spec(t, t).len() implies score_spec(t, t)[i]
        == LetterClass::Correct by {
        assert(0 <= i < t.len() && t[i] == t[i]);
        assert(letter_in_target(t, t[i]));
    }
}

/// A guess sharing no letter with the target scores `Absent` at every
/// position.
pub proof fn lemma_disjoint_all_absent(t: Seq<Seq<char>>, g: Seq<Seq<char>>)
    requires
        t.len() == 5,
        g.len() == 5,
        forall|i: int, j: int| 0 <= i < g.len() && 0 <= j < t.len() ==> g[i] != t[j],
    ensures
        forall|i: int| 0 <= i < score_spec(t, g).len() ==> score_spec(t, g)[i]
            == LetterClass::Absent,
{
    assert forall|i: int| 0 <= i < score_spec(t, g).len() implies score_spec(t, g)[i]
        == LetterClass::Absent by {
        assert(!letter_in_target(t, g[i]));
    }
}

/// Scoring is deterministic: the classification sequence is a function of
/// the target and guess words alone, so identical inputs yield identical
/// output.
pub proof fn lemma_scoring_deterministic(
    t: Seq<Seq<char>>,
    g: Seq<Seq<char>>,
    r1: Seq<LetterClass>,
    r2: Seq<LetterClass>,
)
    requires
        r1 == score_spec(t, g),
        r2 == score_spec(t, g),
    ensures
        r1 == r2,
{
}

} // verus!
