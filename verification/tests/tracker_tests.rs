use clustercut::content::{classify_snapshot, content_eq, ClipboardContent};
use clustercut::tracker::{EchoExpectation, EchoTracker};

fn text(s: &str) -> ClipboardContent {
    ClipboardContent::Text(s.to_string())
}

fn files(paths: &[&str]) -> ClipboardContent {
    ClipboardContent::Files(paths.iter().map(|p| p.to_string()).collect())
}

#[test]
fn echo_then_external_change_scenario() {
    // Local write "hello": the echo is swallowed, then an external "world"
    // is emitted exactly once.
    let mut tracker = EchoTracker::new(ClipboardContent::Empty);
    tracker.note_local_write(text("hello"));
    assert!(matches!(tracker.expectation, EchoExpectation::Expecting(_)));

    let emitted = tracker.tick(&text("hello"));
    assert!(!emitted);
    assert!(matches!(tracker.expectation, EchoExpectation::Idle));
    assert!(content_eq(&tracker.last_observed, &text("hello")));

    let emitted = tracker.tick(&text("world"));
    assert!(emitted);
    assert!(content_eq(&tracker.last_observed, &text("world")));
}

#[test]
fn echo_suppression_for_files() {
    let mut tracker = EchoTracker::new(ClipboardContent::Empty);
    tracker.note_local_write(files(&["/a/x.txt", "/b/y.txt"]));
    let emitted = tracker.tick(&files(&["/a/x.txt", "/b/y.txt"]));
    assert!(!emitted);
    assert!(matches!(tracker.expectation, EchoExpectation::Idle));
}

#[test]
fn unchanged_snapshot_never_duplicated() {
    let mut tracker = EchoTracker::new(text("same"));
    assert!(!tracker.tick(&text("same")));
    assert!(!tracker.tick(&text("same")));
}

#[test]
fn empty_snapshot_never_emitted() {
    let mut tracker = EchoTracker::new(text("something"));
    assert!(!tracker.tick(&ClipboardContent::Empty));
}

#[test]
fn racing_external_text_keeps_expectation() {
    // Same kind, different payload: an external change raced the echo; it
    // is emitted and the stale expectation stays in place.
    let mut tracker = EchoTracker::new(ClipboardContent::Empty);
    tracker.note_local_write(text("ours"));
    let emitted = tracker.tick(&text("theirs"));
    assert!(emitted);
    assert!(matches!(tracker.expectation, EchoExpectation::Expecting(_)));
    // A later tick that finally reads the expected value still matches it.
    let emitted = tracker.tick(&text("ours"));
    assert!(!emitted);
    assert!(matches!(tracker.expectation, EchoExpectation::Idle));
}

#[test]
fn type_mismatch_keeps_expectation() {
    // Expecting text but files appear: an unrelated external change; it is
    // emitted and the expectation is not cleared.
    let mut tracker = EchoTracker::new(ClipboardContent::Empty);
    tracker.note_local_write(text("pending"));
    let emitted = tracker.tick(&files(&["/tmp/f"]));
    assert!(emitted);
    assert!(matches!(tracker.expectation, EchoExpectation::Expecting(_)));
}

#[test]
fn different_file_lists_are_distinct() {
    let a = files(&["/a", "/b"]);
    let b = files(&["/a", "/c"]);
    let c = files(&["/a"]);
    assert!(!content_eq(&a, &b));
    assert!(!content_eq(&a, &c));
    assert!(content_eq(&a, &files(&["/a", "/b"])));
}

#[test]
fn classify_prefers_files_over_text() {
    let r = classify_snapshot(
        Some(vec!["/tmp/a".to_string()]),
        Some("text".to_string()),
    );
    assert!(matches!(r, ClipboardContent::Files(_)));
}

#[test]
fn classify_falls_back_to_text() {
    let r = classify_snapshot(Some(Vec::new()), Some("text".to_string()));
    assert!(matches!(r, ClipboardContent::Text(t) if t == "text"));
    let r = classify_snapshot(None, Some("text".to_string()));
    assert!(matches!(r, ClipboardContent::Text(t) if t == "text"));
}

#[test]
fn classify_degrades_to_empty() {
    assert!(matches!(classify_snapshot(None, None), ClipboardContent::Empty));
    assert!(matches!(
        classify_snapshot(Some(Vec::new()), Some(String::new())),
        ClipboardContent::Empty
    ));
}
