use markcheck::git_text::{
    any_other_path, command_error, find_record, join_path, lossy, parse_number, split_lines,
    split_tab, split_words, trimmed,
};
use markcheck::input::Rect;
use markcheck::model::{Document, Item, ItemKind, List, SubHeading, TaskState};
use markcheck::text::{
    decimal_text, hash_bytes, hash_text, same_hash, same_text, smart_case_contains, text_contains,
};
use markcheck::writer::document_contents;

// ----- Text -------------------------------------------------------------

#[test]
fn decimal_numbers_have_no_leading_zeros() {
    assert_eq!(decimal_text(0), "0");
    assert_eq!(decimal_text(7), "7");
    assert_eq!(decimal_text(100), "100");
    assert_eq!(decimal_text(u128::MAX), "340282366920938463463374607431768211455");
}

#[test]
fn an_uppercase_letter_makes_a_search_exact() {
    assert!(smart_case_contains("Restart the API", "restart"));
    assert!(smart_case_contains("Restart the API", "API"));
    assert!(!smart_case_contains("Restart the api", "API"));
    assert!(!smart_case_contains("restart", "Restart"));
    assert!(smart_case_contains("ÄRGER", "ärger"));
    assert!(!smart_case_contains("ärger", "Ärger"));
    assert!(!smart_case_contains("restart", "stop"));
}

#[test]
fn what_is_found_before_a_space_is_found_in_the_whole() {
    for (start, query) in [("ΟΔΟΣ", "ος"), ("Restart", "start"), ("Restart", "Re"), ("", "a")] {
        for rest in ["", "Σ", "α", "of the API"] {
            let whole = format!("{start} {rest}");
            if smart_case_contains(start, query) {
                assert!(smart_case_contains(&whole, query), "{whole}");
            }
        }
    }
    assert!(smart_case_contains("ΟΔΟΣ", "ος"));
    assert!(!smart_case_contains("ΟΔΟΣΑ", "ος"));
}

#[test]
fn texts_are_found_within_texts() {
    assert!(text_contains("abcabd", "abd"));
    assert!(!text_contains("abcab", "abd"));
    assert!(text_contains("abc", ""));
    assert!(!text_contains("", "a"));
    assert!(same_text("añb", "añb"));
    assert!(!same_text("ab", "abc"));
}

#[test]
fn hashes_tell_contents_apart() {
    assert_eq!(hash_text("abc"), hash_bytes("abc".as_bytes()));
    assert_ne!(hash_text("abc"), hash_text("abd"));
    assert_ne!(hash_text(""), hash_text(" "));
    let (a, b) = (hash_text("- [ ] one\n"), hash_text("- [x] one\n"));
    assert_eq!(a.len(), 32);
    for part in 0..4 {
        assert_ne!(a[8 * part..8 * part + 8], b[8 * part..8 * part + 8]);
        assert_ne!(a[8 * part..8 * part + 8], a[8 * ((part + 1) % 4)..][..8]);
    }
    assert!(same_hash(&a, &hash_text("- [ ] one\n")));
    assert!(!same_hash(&a, &b));
    let mut last = a;
    last[31] ^= 1;
    assert!(!same_hash(&a, &last));
}

// ----- What git prints --------------------------------------------------

#[test]
fn answers_are_trimmed_and_split() {
    assert_eq!(trimmed(" \t a b\r\n"), "a b");
    assert_eq!(trimmed("\u{a0}x\u{3000}"), "x");
    assert_eq!(trimmed(" \n"), "");
    assert_eq!(split_words("  a  bc\td\n"), vec!["a", "bc", "d"]);
    assert!(split_words(" \n").is_empty());
    assert_eq!(split_lines("a\r\nb\n\nc"), vec!["a", "b", "", "c"]);
    assert_eq!(split_lines("a\n"), vec!["a"]);
    assert!(split_lines("").is_empty());
}

#[test]
fn bytes_that_are_no_text_are_replaced() {
    assert_eq!(lossy(b"plain \xe2\x80\xa6"), "plain …");
    assert_eq!(lossy(b"a\xffb"), "a\u{fffd}b");
}

#[test]
fn errors_show_the_first_line_that_git_printed() {
    assert_eq!(command_error("git push", &b"  fatal: no\nmore\n".to_vec()), "git push: fatal: no");
    assert_eq!(command_error("git push", &vec![]), "git push: unknown error");
}

#[test]
fn counts_are_read_or_refused() {
    assert_eq!(parse_number("0"), Some(0));
    assert_eq!(parse_number("42"), Some(42));
    assert_eq!(parse_number("+7"), Some(7));
    assert_eq!(parse_number("18446744073709551615"), Some(u64::MAX));
    assert_eq!(parse_number("18446744073709551616"), None);
    assert_eq!(parse_number(""), None);
    assert_eq!(parse_number("+"), None);
    assert_eq!(parse_number("-1"), None);
    assert_eq!(parse_number("4 2"), None);
}

#[test]
fn records_end_in_nul() {
    assert_eq!(find_record(b"one\0two\0"), Some(b"one".to_vec()));
    assert_eq!(find_record(b""), None);
    assert!(any_other_path(b"a.md\0b.md\0", b"a.md"));
    assert!(!any_other_path(b"a.md\0a.md\0", b"a.md"));
    assert!(!any_other_path(b"", b"a.md"));
    assert_eq!(split_tab("x y\tz\tw"), Some(("x y".to_string(), "z\tw".to_string())));
    assert_eq!(split_tab("xyz"), None);
}

#[test]
fn paths_are_joined_as_the_system_does() {
    assert_eq!(join_path("/a/b", "c"), "/a/b/c");
    assert_eq!(join_path("/a/b/", "c"), "/a/b/c");
    assert_eq!(join_path("/a/b", "/c"), "/c");
    assert_eq!(join_path("", "c"), "c");
}

#[test]
fn rectangles_contain_their_cells() {
    let r = Rect::new(10, 5, 40, 10);
    assert!(r.contains(10, 5));
    assert!(r.contains(49, 14));
    assert!(!r.contains(50, 14));
    assert!(!r.contains(49, 15));
    assert!(!r.contains(9, 5));
}

// ----- Cards ------------------------------------------------------------

fn item(line_number: usize, kind: ItemKind) -> Item {
    Item {
        line_number,
        depth: 0,
        section: vec![],
        display_text: "text".to_string(),
        body: vec![],
        header: None,
        code_spans: vec![],
        code_blocks: vec![],
        kind,
    }
}

#[test]
fn a_search_sees_title_text_and_commands() {
    let mut card = item(1, ItemKind::DisplayOnly);
    assert_eq!(card.search_text(), "text");
    assert_eq!(card.name(), "text");
    card.header = Some("Title".to_string());
    card.code_spans = vec!["ls".to_string(), "cd".to_string()];
    card.code_blocks = vec!["make".to_string()];
    assert_eq!(card.search_text(), "Title text ls cd make");
    assert_eq!(card.name(), "Title");
}

#[test]
fn sub_sections_begin_where_the_headings_change() {
    let sub = |text: &str| vec![SubHeading { level: 3, text: text.to_string() }];
    let with = |section| {
        let mut card = item(1, ItemKind::DisplayOnly);
        card.section = section;
        card
    };
    let list = List {
        title: "L".to_string(),
        banner: None,
        items: vec![with(sub("A")), with(sub("A")), with(vec![]), with(sub("A")), with(sub("B"))],
    };
    assert_eq!(list.sub_section_starts(), vec![0, 3, 4]);
}

// ----- Writing back -----------------------------------------------------

fn document(lines: &[&str], states: &[(usize, TaskState)]) -> Document {
    Document {
        file_path: "c.md".to_string(),
        title: None,
        has_default_list: false,
        lists: vec![List {
            title: "L".to_string(),
            banner: None,
            items: states.iter().map(|(l, s)| item(*l, ItemKind::Checkbox(*s))).collect(),
        }],
        raw_lines: lines.iter().map(|l| l.to_string()).collect(),
        uses_crlf: false,
        trailing_newline: true,
    }
}

#[test]
fn writing_back_an_unchanged_document_is_the_identity() {
    let lines = ["# T", "", "- [X] a [ ] b", "  1. [/] c", "* [ ] d", "no task [x]"];
    let states = [(3, TaskState::Done), (4, TaskState::Started), (5, TaskState::NotStarted)];
    let mut doc = document(&lines, &states);
    assert_eq!(document_contents(&doc), "# T\n\n- [X] a [ ] b\n  1. [/] c\n* [ ] d\nno task [x]\n");
    doc.uses_crlf = true;
    doc.trailing_newline = false;
    assert_eq!(
        document_contents(&doc),
        "# T\r\n\r\n- [X] a [ ] b\r\n  1. [/] c\r\n* [ ] d\r\nno task [x]"
    );
}

#[test]
fn only_the_first_marker_of_a_tasks_line_is_rewritten() {
    let lines = ["- [ ] a [ ] b", "- [x] [link](url) `[ ]`", "- [?] [/] c", "plain"];
    let states = [
        (1, TaskState::Done),
        (2, TaskState::NotStarted),
        (3, TaskState::Done),
        (4, TaskState::Done),
    ];
    assert_eq!(
        document_contents(&document(&lines, &states)),
        "- [x] a [ ] b\n- [ ] [link](url) `[ ]`\n- [?] [x] c\nplain\n"
    );
}

#[test]
fn tasks_beyond_the_end_of_the_file_are_ignored() {
    let states = [(0, TaskState::Done), (9, TaskState::Done)];
    assert_eq!(document_contents(&document(&["- [ ] a"], &states)), "- [ ] a\n");
}
