use splice_alt::errors::IngestError;
use splice_alt::retry::{backoff_delay_ms, retry_after_failure, RetryDecision};
use splice_alt::watcher::{
    classify_path, parent_dir, sibling_path, validate_decision, FileKind, FileWatcher,
};

#[test]
fn classify_by_extension() {
    assert_eq!(classify_path("a/b/kick_01.wav"), FileKind::Binary);
    assert_eq!(classify_path("kick_01.json"), FileKind::Metadata);
    assert_eq!(classify_path("a/b/readme.txt"), FileKind::Other);
    assert_eq!(classify_path("noextension"), FileKind::Other);
    // a leading dot with no other dot is a hidden file, not an extension
    assert_eq!(classify_path("a/.wav"), FileKind::Other);
    assert_eq!(classify_path(".wav"), FileKind::Other);
    // only the file name's extension counts, not a dot in a directory
    assert_eq!(classify_path("dir.wav/file"), FileKind::Other);
    assert_eq!(classify_path("a.tar.wav"), FileKind::Binary);
    // case matters, as it does for the watched events
    assert_eq!(classify_path("a/b.WAV"), FileKind::Other);
}

#[test]
fn sibling_swaps_the_extension() {
    assert_eq!(sibling_path("w/kick_01.wav", "json"), "w/kick_01.json");
    assert_eq!(sibling_path("w/kick_01.json", "wav"), "w/kick_01.wav");
    assert_eq!(sibling_path("a.tar.wav", "json"), "a.tar.json");
    // a name without an extension gets one appended
    assert_eq!(sibling_path("noext", "json"), "noext.json");
    assert_eq!(sibling_path("a/.wav", "json"), "a/.wav.json");
}

#[test]
fn parent_is_everything_before_the_last_slash() {
    assert_eq!(parent_dir("L/Kick/My Pack-2024/kick_01.wav"), "L/Kick/My Pack-2024");
    assert_eq!(parent_dir("kick_01.wav"), "");
    assert_eq!(parent_dir("a/b"), "a");
}

#[test]
fn validation_requires_existing_regular_nonempty() {
    assert_eq!(validate_decision(true, true, 4), Ok(()));
    assert_eq!(validate_decision(false, true, 4), Err(IngestError::MissingFile));
    assert_eq!(validate_decision(true, false, 4), Err(IngestError::NotAFile));
    assert_eq!(validate_decision(true, true, 0), Err(IngestError::EmptyFile));
}

#[test]
fn backoff_doubles_from_one_second() {
    assert_eq!(backoff_delay_ms(1), 1000);
    assert_eq!(backoff_delay_ms(2), 2000);
    assert_eq!(backoff_delay_ms(3), 4000);
}

#[test]
fn retries_until_the_budget_is_spent() {
    assert!(matches!(retry_after_failure(1, 3), RetryDecision::Retry { delay_ms: 1000 }));
    assert!(matches!(retry_after_failure(2, 3), RetryDecision::Retry { delay_ms: 2000 }));
    assert!(matches!(retry_after_failure(3, 3), RetryDecision::GiveUp));
}

#[test]
fn new_watcher_starts_clean() {
    let w = FileWatcher::new("w".to_string(), "l".to_string(), "d".to_string());
    assert_eq!(w.watch_dir, "w");
    assert_eq!(w.library_dir, "l");
    assert_eq!(w.database_path, "d");
    assert_eq!(w.retry_attempts, 3);
    assert_eq!(w.error_count, 0);
}

#[test]
fn every_tenth_failure_pauses() {
    let mut w = FileWatcher::new("w".to_string(), "l".to_string(), "d".to_string());
    for i in 1..=9 {
        assert!(!w.note_failure(), "no pause expected at failure {}", i);
    }
    assert!(w.note_failure(), "the tenth failure pauses");
    assert_eq!(w.error_count, 10);
    for i in 11..=19 {
        assert!(!w.note_failure(), "no pause expected at failure {}", i);
    }
    assert!(w.note_failure(), "the twentieth failure pauses");
}

#[test]
fn successes_wind_the_tally_down_but_not_below_zero() {
    let mut w = FileWatcher::new("w".to_string(), "l".to_string(), "d".to_string());
    w.note_failure();
    w.note_failure();
    w.note_success();
    assert_eq!(w.error_count, 1);
    w.note_success();
    assert_eq!(w.error_count, 0);
    w.note_success();
    assert_eq!(w.error_count, 0);
}
