use markcheck::clipboard::{
    after_osc52, after_system_copy, candidates, copy_item_code, copy_specific, frame_osc52,
    osc52_sequence, CopyOutcome, CopyStep, FallbackStep, OSC52_MAX_BASE64_BYTES,
};
use markcheck::model::{Item, ItemKind, TaskState};

fn item_with_code(spans: Vec<&str>, blocks: Vec<&str>) -> Item {
    Item {
        line_number: 1,
        depth: 0,
        section: vec![],
        display_text: "task".to_string(),
        body: vec![],
        header: None,
        code_spans: spans.into_iter().map(str::to_string).collect(),
        code_blocks: blocks.into_iter().map(str::to_string).collect(),
        kind: ItemKind::Checkbox(TaskState::NotStarted),
    }
}

/// Copies `text` on a host whose system clipboard takes it or not, and whose
/// terminal takes escapes or not. Returns the outcome and what was written to
/// the terminal.
fn copy_text(text: &str, primary: bool, system: bool, terminal: bool) -> (CopyOutcome, String) {
    let mut written = String::new();
    match copy_specific(text, primary) {
        CopyStep::Done(outcome) => (outcome, written),
        CopyStep::TrySystem { text, primary } => match after_system_copy(&text, primary, system) {
            FallbackStep::Done(outcome) => (outcome, written),
            FallbackStep::Emit { clipboard, primary } => {
                if terminal {
                    written.push_str(&clipboard);
                    if let Some(second) = primary {
                        written.push_str(&second);
                    }
                }
                (after_osc52(terminal), written)
            }
        },
    }
}

#[test]
fn no_code_yields_no_candidates() {
    let item = item_with_code(vec![], vec![]);
    assert_eq!(copy_item_code(&item, false), CopyStep::Done(CopyOutcome::NoCandidates));
}

#[test]
fn multiple_spans_without_block_are_ambiguous() {
    let item = item_with_code(vec!["one", "two"], vec![]);
    assert_eq!(copy_item_code(&item, false), CopyStep::Done(CopyOutcome::Ambiguous(2)));
}

#[test]
fn multiple_blocks_are_ambiguous_regardless_of_spans() {
    let item = item_with_code(vec!["span"], vec!["block-a", "block-b"]);
    assert_eq!(copy_item_code(&item, false), CopyStep::Done(CopyOutcome::Ambiguous(2)));
}

#[test]
fn single_block_wins_over_spans() {
    let item = item_with_code(vec!["span-a", "span-b"], vec!["the-block"]);
    assert_eq!(candidates(&item), &["the-block".to_string()]);
    assert_eq!(
        copy_item_code(&item, true),
        CopyStep::TrySystem { text: "the-block".to_string(), primary: true }
    );
}

#[test]
fn spans_are_fallback_when_no_blocks() {
    let item = item_with_code(vec!["the-span"], vec![]);
    assert_eq!(candidates(&item), &["the-span".to_string()]);
}

#[test]
fn osc52_sequence_has_expected_format() {
    assert_eq!(osc52_sequence("hello", 'c').unwrap(), "\x1b]52;c;aGVsbG8=\x07");
}

#[test]
fn osc52_sequence_uses_the_given_selection() {
    assert_eq!(osc52_sequence("hello", 'p').unwrap(), "\x1b]52;p;aGVsbG8=\x07");
}

#[test]
fn osc52_sequence_encodes_the_bytes_of_the_text() {
    assert_eq!(osc52_sequence("", 'c').unwrap(), "\x1b]52;c;\x07");
    assert_eq!(osc52_sequence("é", 'c').unwrap(), "\x1b]52;c;w6k=\x07");
    assert_eq!(osc52_sequence("Man", 'c').unwrap(), "\x1b]52;c;TWFu\x07");
}

#[test]
fn an_escape_is_closed_only_at_its_end() {
    let sequence = osc52_sequence("a\x07b\x1bc", 'c').unwrap();
    assert_eq!(sequence.matches('\x07').count(), 1);
    assert_eq!(sequence.matches('\x1b').count(), 1);
    assert!(sequence.starts_with('\x1b'));
    assert!(sequence.ends_with('\x07'));
    assert_eq!(frame_osc52("TWFu", 'p'), "\x1b]52;p;TWFu\x07");
}

#[test]
fn an_oversized_payload_is_reported_as_too_large_not_as_a_missing_clipboard() {
    let huge = "x".repeat(OSC52_MAX_BASE64_BYTES);
    assert!(osc52_sequence(&huge, 'c').is_none());
    assert_eq!(copy_text(&huge, false, false, true).0, CopyOutcome::TooLarge);
    assert_eq!(copy_text(&huge, false, true, true).0, CopyOutcome::CopiedSystem);
}

#[test]
fn osc52_sequence_refuses_oversized_payload() {
    let big = "x".repeat(OSC52_MAX_BASE64_BYTES);
    assert_eq!(osc52_sequence(&big, 'c'), None);
}

#[test]
fn the_largest_payload_that_fits_is_sent() {
    // Three bytes make four characters of payload.
    let fits = "x".repeat(OSC52_MAX_BASE64_BYTES / 4 * 3);
    assert!(osc52_sequence(&fits, 'c').is_some());
    let exceeds = "x".repeat(OSC52_MAX_BASE64_BYTES / 4 * 3 + 1);
    assert_eq!(osc52_sequence(&exceeds, 'c'), None);
}

#[test]
fn emit_osc52_refuses_oversized_payload_without_writing() {
    let big = "x".repeat(OSC52_MAX_BASE64_BYTES);
    let (outcome, written) = copy_text(&big, false, false, true);
    assert_eq!(outcome, CopyOutcome::TooLarge);
    assert_eq!(written, "");
}

#[test]
fn copy_text_with_primary_also_targets_the_primary_selection() {
    let (outcome, written) = copy_text("hello", true, false, true);
    assert_eq!(outcome, CopyOutcome::CopiedOsc52);
    assert_eq!(written, "\x1b]52;c;aGVsbG8=\x07\x1b]52;p;aGVsbG8=\x07");
    let (outcome, written) = copy_text("hello", false, false, true);
    assert_eq!(outcome, CopyOutcome::CopiedOsc52);
    assert_eq!(written, "\x1b]52;c;aGVsbG8=\x07");
    assert_eq!(copy_text("hello", true, false, false).0, CopyOutcome::Failed);
    assert_eq!(copy_text("hello", true, true, false).0, CopyOutcome::CopiedSystem);
}
