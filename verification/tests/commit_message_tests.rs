use markcheck::git_sync::{
    commit_message, find_file_name, MAX_COMMIT_MESSAGE_LEN, MAX_FILE_NAME_LEN,
};

#[test]
fn commit_message_prefixes_the_file_name() {
    assert_eq!(
        commit_message("/a/b/checklist.md", "Check \"x\""),
        "checklist.md: Check \"x\""
    );
}

#[test]
fn commit_message_truncates_a_long_description() {
    let long_item = "x".repeat(100);
    let message = commit_message("/a/b/checklist.md", &format!("Check \"{long_item}\""));
    assert_eq!(message.chars().count(), 80);
    assert!(message.starts_with("checklist.md: Check \"xxx"));
    assert!(
        message.ends_with("\u{2026}\""),
        "closes the quote opened by the item text: {message:?}"
    );
    assert_eq!(message.matches('"').count(), 2);
}

#[test]
fn commit_message_truncation_without_a_quote_gets_no_closing_quote() {
    let message = commit_message(
        "/a/b/checklist.md",
        &format!("Reset all tasks to not done and then some more {}", "x".repeat(50)),
    );
    assert_eq!(message.chars().count(), 80);
    assert!(message.ends_with('\u{2026}'));
    assert!(!message.ends_with("\u{2026}\""));
}

#[test]
fn commit_message_stays_within_the_cap_for_a_very_long_file_name() {
    for name_len in [MAX_FILE_NAME_LEN - 1, MAX_FILE_NAME_LEN, 79, 100, 200] {
        let name = format!("{}.md", "x".repeat(name_len));
        let message = commit_message(
            &format!("/a/b/{name}"),
            "Check \"a task with a reasonably long title\"",
        );
        assert!(
            message.chars().count() <= MAX_COMMIT_MESSAGE_LEN,
            "name_len {name_len}: {} chars: {message:?}",
            message.chars().count()
        );
        assert!(message.contains(": "), "the prefix separator survives: {message:?}");
    }
}

#[test]
fn commit_message_keeps_an_ordinary_file_name_intact() {
    let message = commit_message("/a/b/deployment-runbook.md", "Check \"x\"");
    assert!(message.starts_with("deployment-runbook.md: "), "{message}");
}

#[test]
fn commit_message_leaves_a_short_description_untruncated() {
    let message = commit_message("/a/b/checklist.md", "Check \"short\"");
    assert_eq!(message, "checklist.md: Check \"short\"");
    assert!(!message.contains('\u{2026}'));
}

#[test]
fn file_names_are_the_last_segments_of_paths() {
    assert_eq!(find_file_name("/a/b/c.md").as_deref(), Some("c.md"));
    assert_eq!(find_file_name("c.md").as_deref(), Some("c.md"));
    assert_eq!(find_file_name("/a/b/").as_deref(), Some("b"));
    assert_eq!(find_file_name("/a/b/.").as_deref(), Some("b"));
    assert_eq!(find_file_name("/a/b/.."), None);
    assert_eq!(find_file_name("/"), None);
    assert_eq!(commit_message("/", "Check \"x\""), "checklist: Check \"x\"");
}

#[test]
fn a_long_file_name_is_cut_and_marked() {
    let message = commit_message(&format!("/a/{}", "x".repeat(200)), "d");
    assert_eq!(message, format!("{}\u{2026}: d", "x".repeat(MAX_FILE_NAME_LEN - 1)));
}
