use wordle::model::{cache_is_stale, Dictionary, Errors, LetterClass};
use wordle::session::GuessHistory;

use LetterClass::Correct;

fn words(list: &[&str]) -> Vec<String> {
    list.iter().map(|w| w.to_string()).collect()
}

fn session(target: &str) -> GuessHistory {
    GuessHistory::try_new(target.to_string(), 1, words(&["tablo", "kalem"]))
        .expect("target must have five graphemes")
}

#[test]
fn session_initial_state() {
    let gh = session("tablo");
    assert_eq!(gh.count(), 0);
    assert!(!gh.is_over());
    assert!(!gh.is_won());
    assert!(!gh.is_failed());
}

#[test]
fn session_win_on_first_guess() {
    let mut gh = session("tablo");
    assert_eq!(gh.add_guess("tablo".to_string()), Ok(true));
    assert_eq!(gh.count(), 1);
    assert!(gh.is_won());
    assert!(gh.is_over());
    assert!(!gh.is_failed());
    let classes = gh.get_colors_index(0).expect("stored guess must score");
    assert_eq!(classes, vec![Correct, Correct, Correct, Correct, Correct]);
}

#[test]
fn session_anagram_stays_in_progress() {
    let mut gh = session("kalem");
    assert_eq!(gh.add_guess("melak".to_string()), Err(Errors::NotInDictionary));
    let mut gh = GuessHistory::try_new("kalem".to_string(), 1, words(&["kalem", "melak"]))
        .expect("target must have five graphemes");
    assert_eq!(gh.add_guess("melak".to_string()), Ok(true));
    assert!(!gh.is_won());
    assert!(!gh.is_over());
}

#[test]
fn session_six_misses_is_lost() {
    let mut gh = session("tablo");
    for _ in 0..6 {
        assert_eq!(gh.add_guess("kalem".to_string()), Ok(true));
    }
    assert_eq!(gh.count(), 6);
    assert!(gh.is_failed());
    assert!(gh.is_over());
    assert!(!gh.is_won());
    assert_eq!(gh.add_guess("kalem".to_string()), Err(Errors::GuessLimitExceeded));
    assert_eq!(gh.count(), 6);
}

#[test]
fn session_win_on_sixth_guess_is_not_lost() {
    let mut gh = session("tablo");
    for _ in 0..5 {
        assert_eq!(gh.add_guess("kalem".to_string()), Ok(true));
    }
    assert_eq!(gh.add_guess("tablo".to_string()), Ok(true));
    assert_eq!(gh.count(), 6);
    assert!(gh.is_won());
    assert!(!gh.is_failed());
    assert!(gh.is_over());
}

#[test]
fn session_rejects_unknown_word() {
    let mut gh = session("tablo");
    assert_eq!(gh.add_guess("abcde".to_string()), Err(Errors::NotInDictionary));
    assert_eq!(gh.count(), 0);
    assert!(!gh.is_over());
}

#[test]
fn session_rejects_wrong_length() {
    let mut gh = session("tablo");
    assert_eq!(gh.add_guess("abc".to_string()), Err(Errors::InvalidGuessLength));
    assert_eq!(gh.count(), 0);
}

#[test]
fn session_length_is_checked_before_limit() {
    let mut gh = session("tablo");
    for _ in 0..6 {
        assert_eq!(gh.add_guess("kalem".to_string()), Ok(true));
    }
    assert_eq!(gh.add_guess("abc".to_string()), Err(Errors::InvalidGuessLength));
}

#[test]
fn session_history_is_append_only() {
    let mut gh = session("tablo");
    assert_eq!(gh.add_guess("kalem".to_string()), Ok(true));
    assert_eq!(gh.guesses(), &words(&["kalem"]));
    assert_eq!(gh.add_guess("abcde".to_string()), Err(Errors::NotInDictionary));
    assert_eq!(gh.guesses(), &words(&["kalem"]));
    assert_eq!(gh.add_guess("tablo".to_string()), Ok(true));
    assert_eq!(gh.guesses(), &words(&["kalem", "tablo"]));
}

#[test]
fn try_new_rejects_wrong_target_length() {
    assert!(GuessHistory::try_new("abcd".to_string(), 1, words(&[])).is_none());
    assert!(GuessHistory::try_new("abcdef".to_string(), 1, words(&[])).is_none());
    assert!(GuessHistory::try_new("abcde".to_string(), 1, words(&[])).is_some());
}

#[test]
fn wordle_day_is_kept() {
    let gh = GuessHistory::try_new("tablo".to_string(), 42, words(&["tablo"]))
        .expect("target must have five graphemes");
    assert_eq!(gh.wordle_day(), 42);
}

#[test]
fn dictionary_default_is_empty() {
    let d = Dictionary::default();
    assert!(d.words.is_empty());
}

#[test]
fn cache_staleness_boundary() {
    let week_secs: u64 = 60 * 60 * 24 * 7;
    assert!(!cache_is_stale(0));
    assert!(!cache_is_stale(week_secs));
    assert!(cache_is_stale(week_secs + 1));
}
