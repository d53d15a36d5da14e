use std::cell::RefCell;
use std::ops::{Deref, DerefMut};
use std::rc::Rc;

use markcheck::app::DiskStamp;
use markcheck::app_state::{AppState, CopyReport, OverviewTarget, Screen, UNDO_HISTORY_CAP};
use markcheck::app_write::{DiskState, FileStat, Parsed, WriteDecision};
use markcheck::clipboard::CopyOutcome;
use markcheck::input::{KeyCode, KeyModifiers, Rect};
use markcheck::model::{BodySpan, Document, Item, ItemKind, List, SubHeading, TaskState};
use markcheck::text::{hash_bytes, is_safe_link, ContentHash};
use markcheck::writer::document_contents;

// ----- A file in memory, and an application that works on it ------------

struct Stored {
    content: Option<Vec<u8>>,
    mtime: u128,
}

/// A checklist file. Every write gives it a later modification time.
#[derive(Clone)]
struct Disk(Rc<RefCell<Stored>>);

impl Disk {
    fn new(content: Option<Vec<u8>>) -> Disk {
        Disk(Rc::new(RefCell::new(Stored { content, mtime: 1 })))
    }

    fn write(&self, content: impl AsRef<[u8]>) {
        let mut stored = self.0.borrow_mut();
        stored.content = Some(content.as_ref().to_vec());
        stored.mtime += 1;
    }

    fn remove(&self) {
        self.0.borrow_mut().content = None;
    }

    fn text(&self) -> String {
        String::from_utf8(self.bytes().expect("the file is there")).expect("UTF-8")
    }

    fn bytes(&self) -> Option<Vec<u8>> {
        self.0.borrow().content.clone()
    }

    fn mtime(&self) -> u128 {
        self.0.borrow().mtime
    }

    fn set_mtime(&self, mtime: u128) {
        self.0.borrow_mut().mtime = mtime;
    }

    fn hash(&self) -> Option<ContentHash> {
        self.bytes().map(|b| hash_bytes(&b))
    }

    fn stat(&self) -> FileStat {
        match self.bytes() {
            Some(b) => FileStat::Found { mtime: self.mtime(), size: b.len() as u64 },
            None => FileStat::Missing,
        }
    }

    fn state(&self) -> Option<DiskState> {
        let bytes = self.bytes()?;
        let parsed = match String::from_utf8(bytes.clone()) {
            Ok(text) => Parsed::Read(read_checklist(&text)),
            Err(_) => Parsed::Failed("stream did not contain valid UTF-8".to_string()),
        };
        Some(DiskState {
            mtime: self.mtime(),
            size: bytes.len() as u64,
            hash: Some(hash_bytes(&bytes)),
            parsed,
        })
    }
}

/// Reads the plain checklists that these tests write: `##` headings, and tasks
/// with a command each.
fn read_checklist(text: &str) -> Document {
    let mut lists: Vec<List> = Vec::new();
    let mut title = None;
    for (index, line) in text.lines().enumerate() {
        if let Some(name) = line.strip_prefix("## ") {
            lists.push(List { title: name.to_string(), banner: None, items: vec![] });
        } else if let Some(name) = line.strip_prefix("# ") {
            title = Some(name.to_string());
        } else if let Some(rest) = line.strip_prefix("- [") {
            let mut item = checkbox(index + 1, rest.starts_with('x'));
            item.display_text = rest[3..].replace('`', "");
            lists.last_mut().expect("a list").items.push(item);
        }
    }
    Document {
        file_path: "checklist.md".to_string(),
        title,
        has_default_list: false,
        lists,
        raw_lines: text.lines().map(|l| l.to_string()).collect(),
        uses_crlf: false,
        trailing_newline: text.ends_with('\n'),
    }
}

/// The application with its file: changes are written at once.
struct App {
    state: AppState,
    disk: Disk,
}

impl Deref for App {
    type Target = AppState;

    fn deref(&self) -> &AppState {
        &self.state
    }
}

impl DerefMut for App {
    fn deref_mut(&mut self) -> &mut AppState {
        &mut self.state
    }
}

impl App {
    fn new(document: Document) -> App {
        let content = if document.file_path == "missing.md" { None } else { Some(Vec::new()) };
        App::with_disk(document, Disk::new(content))
    }

    fn open(disk: &Disk) -> App {
        App::with_disk(read_checklist(&disk.text()), disk.clone())
    }

    fn with_disk(document: Document, disk: Disk) -> App {
        let stamp = match disk.bytes() {
            Some(b) => DiskStamp {
                mtime: Some(disk.mtime()),
                size: Some(b.len() as u64),
                hash: disk.hash(),
            },
            None => DiskStamp { mtime: None, size: None, hash: None },
        };
        App { state: AppState::new(document, stamp), disk }
    }

    /// Writes the change that waits, if there is one.
    fn settle(&mut self) {
        match self.state.resolve_write(self.disk.hash()) {
            WriteDecision::Nothing => {}
            WriteDecision::Conflict => {
                let found = self.disk.state();
                self.state.finish_conflict(found);
            }
            WriteDecision::Write(content) => {
                if self.disk.bytes().is_some() {
                    let size = content.len() as u64;
                    self.disk.write(content);
                    self.state.finish_write(true, Some((self.disk.mtime(), size)));
                } else {
                    self.state.finish_write(false, None);
                }
            }
        }
    }

    fn toggle_current(&mut self) {
        self.state.toggle_current();
        self.settle();
    }

    fn toggle_item(&mut self, list: usize, item: usize) {
        self.state.toggle_item(list, item);
        self.settle();
    }

    fn start_current(&mut self) {
        self.state.start_current();
        self.settle();
    }

    fn reset_all(&mut self) {
        self.state.reset_all();
        self.settle();
    }

    fn undo(&mut self) {
        self.state.undo();
        self.settle();
    }

    fn redo(&mut self) {
        self.state.redo();
        self.settle();
    }

    fn handle_key(&mut self, code: KeyCode) {
        self.state.handle_key(code);
        self.settle();
    }

    fn handle_key_with_mods(&mut self, code: KeyCode, modifiers: KeyModifiers) {
        self.state.handle_key_with_mods(code, modifiers);
        self.settle();
    }

    fn handle_left_click(&mut self, col: u16, row: u16) {
        self.state.handle_left_click(col, row);
        self.settle();
    }

    fn disk_content_diverged(&self) -> bool {
        self.state.disk_content_diverged(self.disk.hash())
    }

    fn reload_if_changed(&mut self) -> bool {
        match self.state.reload_if_changed(self.disk.stat()) {
            None => false,
            Some(request) => match self.disk.state() {
                None => false,
                Some(found) => self.state.reload_from_disk(found, request.was_deleted),
            },
        }
    }
}

// ----- Documents --------------------------------------------------------

fn checkbox(line_number: usize, completed: bool) -> Item {
    Item {
        line_number,
        depth: 0,
        section: vec![],
        display_text: format!("task {line_number}"),
        body: vec![],
        header: None,
        code_spans: vec![],
        code_blocks: vec![],
        kind: ItemKind::Checkbox(if completed {
            TaskState::Done
        } else {
            TaskState::NotStarted
        }),
    }
}

fn display_only(line_number: usize) -> Item {
    Item {
        line_number,
        depth: 0,
        section: vec![],
        display_text: format!("heading {line_number}"),
        body: vec![],
        header: None,
        code_spans: vec![],
        code_blocks: vec![],
        kind: ItemKind::DisplayOnly,
    }
}

fn document_at(file_path: &str, lists: Vec<List>) -> Document {
    let max_line = lists
        .iter()
        .flat_map(|s| s.items.iter())
        .map(|i| i.line_number)
        .max()
        .unwrap_or(0);
    Document {
        file_path: file_path.to_string(),
        title: None,
        has_default_list: false,
        lists,
        raw_lines: vec![String::new(); max_line],
        uses_crlf: false,
        trailing_newline: true,
    }
}

fn document_with_lists(lists: Vec<List>) -> Document {
    document_at("checklist.md", lists)
}

/// A document whose file is not there, so that it cannot be written.
fn document_with_missing_file(lists: Vec<List>) -> Document {
    document_at("missing.md", lists)
}

/// How many tasks are done, and how many there are.
fn checkbox_stats(document: &Document) -> (usize, usize) {
    let kinds: Vec<ItemKind> =
        document.lists.iter().flat_map(|l| l.items.iter()).map(|i| i.kind).collect();
    let done = kinds.iter().filter(|k| **k == ItemKind::Checkbox(TaskState::Done)).count();
    let tasks = kinds.iter().filter(|k| matches!(k, ItemKind::Checkbox(_))).count();
    (done, tasks)
}

fn two_list_document() -> Document {
    document_with_lists(vec![
        List {
            title: "List 1".to_string(),
            banner: None,
            items: vec![checkbox(1, false), checkbox(2, false), checkbox(3, false)],
        },
        List {
            title: "List 2".to_string(),
            banner: None,
            items: vec![checkbox(4, false), checkbox(5, false)],
        },
    ])
}

fn two_list_document_first_list_almost_done() -> Document {
    document_with_lists(vec![
        List {
            title: "List 1".to_string(),
            banner: None,
            items: vec![checkbox(1, true), checkbox(2, true), checkbox(3, false)],
        },
        List {
            title: "List 2".to_string(),
            banner: None,
            items: vec![checkbox(4, false), checkbox(5, false)],
        },
    ])
}

// --- Started / in-progress task state ---

#[test]
fn start_current_marks_started_without_advancing() {
    let mut state = App::new(two_list_document());
    state.start_current();
    assert_eq!(
        state.current_item().unwrap().kind,
        ItemKind::Checkbox(TaskState::Started)
    );
    assert_eq!(state.current_item_index, 0, "does not auto-advance");
    assert_eq!(state.screen, Screen::Checklist);
}

#[test]
fn start_current_toggles_started_off() {
    let mut state = App::new(two_list_document());
    state.start_current();
    state.start_current();
    assert_eq!(
        state.current_item().unwrap().kind,
        ItemKind::Checkbox(TaskState::NotStarted)
    );
}

#[test]
fn start_current_on_done_task_reopens_as_started() {
    let mut state = App::new(two_list_document());
    state.toggle_current(); // Done (then it auto-advances)
    state.current_item_index = 0;
    state.start_current();
    assert_eq!(
        state.current_list().items[0].kind,
        ItemKind::Checkbox(TaskState::Started)
    );
}

#[test]
fn toggle_completes_a_started_task() {
    let mut state = App::new(two_list_document());
    state.start_current();
    state.toggle_current();
    assert_eq!(
        state.current_list().items[0].kind,
        ItemKind::Checkbox(TaskState::Done)
    );
}

#[test]
fn started_task_does_not_complete_the_list() {
    let mut state = App::new(two_list_document_first_list_almost_done());
    state.current_item_index = 2;
    state.start_current();
    assert_eq!(state.screen, Screen::Checklist);
    assert_eq!(checkbox_stats(&state.document), (2, 5), "started ≠ done");
}

#[test]
fn startup_selects_started_task_as_first_undone() {
    let mut document = document_with_lists(vec![List {
        title: "S".to_string(),
        banner: None,
        items: vec![checkbox(1, true), checkbox(2, false), checkbox(3, false)],
    }]);
    document.lists[0].items[1].kind = ItemKind::Checkbox(TaskState::Started);
    let state = App::new(document);
    assert_eq!(state.current_item_index, 1, "lands on the started item");
}

// --- Help overlay ---

#[test]
fn help_key_opens_and_a_non_scroll_key_closes() {
    let mut state = App::new(two_list_document());
    state.handle_key(KeyCode::Char('?'));
    assert_eq!(state.screen, Screen::Help);
    state.handle_key(KeyCode::Char('x'));
    assert_eq!(
        state.screen,
        Screen::Checklist,
        "a non-scroll key closes help"
    );
}

#[test]
fn help_scroll_keys_scroll_instead_of_closing() {
    let mut state = App::new(two_list_document());
    state.handle_key(KeyCode::Char('?'));
    state.help.max_scroll = 5; // as if the renderer measured an overflow
    state.help.viewport_height = 6;
    state.handle_key(KeyCode::Char('j'));
    assert_eq!(state.screen, Screen::Help, "j scrolls, does not close");
    assert_eq!(state.help.scroll, 1);
    state.handle_key(KeyCode::Down);
    assert_eq!(state.help.scroll, 2);
    state.handle_key(KeyCode::Char('k'));
    assert_eq!(state.help.scroll, 1);
    state.handle_key_with_mods(KeyCode::Char('d'), KeyModifiers::control());
    assert_eq!(state.help.scroll, 4, "Ctrl-D jumps half a page (3)");
    state.handle_key(KeyCode::PageDown);
    assert_eq!(state.help.scroll, 5, "clamps at help.max_scroll");
    state.handle_key(KeyCode::Char('q')); // a non-scroll key still closes
    assert_eq!(state.screen, Screen::Checklist);
}

#[test]
fn help_returns_to_the_screen_it_was_opened_from() {
    let mut state = App::new(two_list_document());
    state.screen = Screen::ListComplete;
    state.handle_key(KeyCode::Char('?'));
    assert_eq!(state.screen, Screen::Help);
    state.handle_key(KeyCode::Esc);
    assert_eq!(state.screen, Screen::ListComplete);
}

// --- Advancing between lists ---

#[test]
fn navigate_forward_crosses_into_next_list_at_end() {
    let mut state = App::new(two_list_document());
    state.current_item_index = 2; // last item of list 0
    state.navigate_forward();
    assert_eq!(state.current_list_index, 1, "moved to next list");
    assert_eq!(state.current_item_index, 0, "first undone of that list");
}

#[test]
fn navigate_forward_clamps_at_last_list_end() {
    let mut state = App::new(two_list_document());
    state.current_list_index = 1;
    state.current_item_index = 1; // last item of the last list
    state.navigate_forward();
    assert_eq!(state.current_list_index, 1);
    assert_eq!(state.current_item_index, 1, "stays put at the very end");
}

#[test]
fn navigate_backward_crosses_into_previous_list_first_undone() {
    let mut state = App::new(two_list_document_first_list_almost_done());
    state.current_list_index = 1;
    state.current_item_index = 0; // first item of list 1
    state.navigate_backward();
    assert_eq!(state.current_list_index, 0, "moved to previous list");
    assert_eq!(state.current_item_index, 2, "first not-done of that list");
}

#[test]
fn navigate_backward_within_list_steps_one_item() {
    let mut state = App::new(two_list_document());
    state.current_item_index = 2;
    state.navigate_backward();
    assert_eq!(state.current_list_index, 0);
    assert_eq!(state.current_item_index, 1, "just the previous item");
}

#[test]
fn navigate_backward_clamps_at_first_list_start() {
    let mut state = App::new(two_list_document());
    state.current_list_index = 0;
    state.current_item_index = 0;
    state.navigate_backward();
    assert_eq!(state.current_list_index, 0);
    assert_eq!(state.current_item_index, 0, "stays put at the very start");
}

#[test]
fn completing_last_item_with_earlier_incomplete_stays_in_list() {
    let mut state = App::new(two_list_document());
    state.current_item_index = 2; // items 0 and 1 remain not done
    state.toggle_current();
    assert_eq!(state.current_list_index, 0, "does not cross lists");
    assert_eq!(state.screen, Screen::Checklist);
}

#[test]
fn tab_jumps_to_next_incomplete_task_within_and_across_lists() {
    let mut state = App::new(two_list_document());
    state.current_list_index = 0;
    state.current_item_index = 0;
    state.handle_key(KeyCode::Tab);
    assert_eq!(
        (state.current_list_index, state.current_item_index),
        (0, 1),
        "next undone task in the same list"
    );

    let mut state = App::new(two_list_document_first_list_almost_done());
    state.current_list_index = 0;
    state.current_item_index = 2;
    state.handle_key(KeyCode::Tab);
    assert_eq!(
        (state.current_list_index, state.current_item_index),
        (1, 0),
        "crosses into the next list's first undone task"
    );
}

#[test]
fn tab_wraps_around_to_the_first_incomplete_task() {
    let mut state = App::new(two_list_document_first_list_almost_done());
    state.current_list_index = 1;
    state.current_item_index = 1;
    state.handle_key(KeyCode::Tab);
    assert_eq!(
        (state.current_list_index, state.current_item_index),
        (0, 2),
        "wraps to the first unfinished task"
    );
}

#[test]
fn n_unbound_and_shift_l_jumps_lists() {
    let mut state = App::new(two_list_document());
    state.current_list_index = 0;
    state.current_item_index = 0;
    state.handle_key(KeyCode::Char('n'));
    assert_eq!(state.current_list_index, 0, "n is unbound");
    state.handle_key(KeyCode::Char('L'));
    assert_eq!(state.current_list_index, 1, "Shift-L jumps lists");
}

#[test]
fn shift_l_at_the_last_incomplete_list_reports_it() {
    let mut state = App::new(two_list_document());
    state.current_list_index = 1; // already the last (and only later) list
    state.jump_to_next_incomplete_list();
    assert_eq!(state.current_list_index, 1, "did not move");
    assert_eq!(
        state.status_message.as_deref(),
        Some("Already at the last incomplete list")
    );
    assert!(state.status_is_error);
}

#[test]
fn shift_h_at_the_first_incomplete_list_reports_it() {
    let mut state = App::new(two_list_document());
    state.current_list_index = 0; // already the first (and only earlier) list
    state.jump_to_prev_incomplete_list();
    assert_eq!(state.current_list_index, 0, "did not move");
    assert_eq!(
        state.status_message.as_deref(),
        Some("Already at the first incomplete list")
    );
    assert!(state.status_is_error);
}

#[test]
fn shift_l_with_no_incomplete_lists_at_all_reports_it() {
    let mut state = App::new(document_with_lists(vec![List {
        title: "L".to_string(),
        banner: None,
        items: vec![checkbox(1, true), checkbox(2, true)],
    }]));
    state.jump_to_next_incomplete_list();
    assert_eq!(
        state.status_message.as_deref(),
        Some("No lists have unfinished tasks")
    );
    assert!(state.status_is_error);
}

#[test]
fn tab_with_no_unfinished_tasks_reports_it() {
    let mut state = App::new(document_with_lists(vec![List {
        title: "L".to_string(),
        banner: None,
        items: vec![checkbox(1, true), checkbox(2, true)],
    }]));
    state.jump_to_next_incomplete_task();
    assert_eq!(state.status_message.as_deref(), Some("No unfinished tasks"));
    assert!(state.status_is_error);
}

#[test]
fn gg_goes_to_first_task_and_g_then_other_key_cancels() {
    let mut state = App::new(two_list_document());
    state.current_list_index = 1;
    state.current_item_index = 1;
    state.handle_key(KeyCode::Char('g'));
    assert!(state.pending_g);
    state.handle_key(KeyCode::Char('l'));
    assert!(!state.pending_g, "a non-g key cancels the pending gg");
    assert_ne!(
        (state.current_list_index, state.current_item_index),
        (0, 0),
        "single g does not jump"
    );
    state.current_list_index = 1;
    state.current_item_index = 1;
    state.handle_key(KeyCode::Char('g'));
    state.handle_key(KeyCode::Char('g'));
    assert_eq!((state.current_list_index, state.current_item_index), (0, 0));
}

#[test]
fn capital_g_goes_to_last_task() {
    let mut state = App::new(two_list_document());
    state.current_list_index = 0;
    state.current_item_index = 0;
    state.handle_key(KeyCode::Char('G'));
    let last_list = state.document.lists.len() - 1;
    let last_item = state.document.lists[last_list].items.len() - 1;
    assert_eq!(
        (state.current_list_index, state.current_item_index),
        (last_list, last_item)
    );
}

#[test]
fn motions_are_noops_when_no_list_has_items() {
    let mut state = App::new(document_with_lists(vec![
        List {
            title: "Empty A".to_string(),
            banner: None,
            items: vec![],
        },
        List {
            title: "Empty B".to_string(),
            banner: None,
            items: vec![],
        },
    ]));
    assert!(state.current_item().is_none());

    state.go_to_last_item();
    state.jump_to_next_incomplete_task();
    state.go_to_first_item();

    assert_eq!((state.current_list_index, state.current_item_index), (0, 0));
    assert_eq!(state.screen, Screen::Checklist);
}

// --- Search foundation ---

fn text_item(line: usize, text: &str) -> Item {
    let mut item = checkbox(line, false);
    item.display_text = text.to_string();
    item
}

#[test]
fn find_matches_is_smart_case_and_in_document_order() {
    let state = App::new(document_with_lists(vec![
        List {
            title: "L1".to_string(),
            banner: None,
            items: vec![
                text_item(1, "Restart the API server"),
                text_item(2, "check disk space"),
            ],
        },
        List {
            title: "L2".to_string(),
            banner: None,
            items: vec![text_item(3, "restart the worker")],
        },
    ]));
    assert_eq!(state.find_matches("restart"), vec![(0, 0), (1, 0)]);
    assert_eq!(state.find_matches("Restart"), vec![(0, 0)]);
    assert!(state.find_matches("").is_empty());
    assert!(state.find_matches("zzz").is_empty());
}

#[test]
fn find_matches_searches_command_text() {
    let mut item = text_item(1, "reboot the box");
    item.code_blocks = vec!["systemctl restart nginx".to_string()];
    let state = App::new(document_with_lists(vec![List {
        title: "L".to_string(),
        banner: None,
        items: vec![item],
    }]));
    assert_eq!(state.find_matches("nginx"), vec![(0, 0)]);
}

#[test]
fn focus_item_lands_on_exact_item_and_clamps() {
    let mut state = App::new(two_list_document());
    state.focus_item(1, 0);
    assert_eq!((state.current_list_index, state.current_item_index), (1, 0));
    assert_eq!(state.screen, Screen::Checklist);
    state.focus_item(0, 99);
    let last = state.document.lists[0].items.len() - 1;
    assert_eq!(
        (state.current_list_index, state.current_item_index),
        (0, last)
    );
    state.focus_item(99, 0);
    assert_eq!(state.current_list_index, 0);
}

fn type_str(state: &mut App, text: &str) {
    for c in text.chars() {
        state.handle_key(KeyCode::Char(c));
    }
}

#[test]
fn slash_enters_search_and_typing_jumps_to_first_match() {
    let mut state = App::new(two_list_document());
    state.handle_key(KeyCode::Char('/'));
    assert_eq!(state.screen, Screen::Search);
    type_str(&mut state, "task 3");
    assert_eq!(state.search.query, "task 3");
    assert_eq!((state.current_list_index, state.current_item_index), (0, 2));
    assert_eq!(state.screen, Screen::Search);
}

#[test]
fn search_ignores_control_modified_keys() {
    let mut state = App::new(two_list_document());
    state.handle_key(KeyCode::Char('/'));
    state.handle_key_with_mods(KeyCode::Char('h'), KeyModifiers::control());
    assert_eq!(state.search.query, "");
    state.handle_key(KeyCode::Char('h')); // plain typing still works
    assert_eq!(state.search.query, "h");
}

#[test]
fn search_query_captures_command_keys_as_text() {
    let mut state = App::new(two_list_document());
    state.handle_key(KeyCode::Char('/'));
    type_str(&mut state, "q?j");
    assert_eq!(state.search.query, "q?j");
    assert!(!state.should_quit, "typing q in search does not quit");
    assert_eq!(state.screen, Screen::Search);
}

#[test]
fn search_backspace_edits_query_and_rejumps() {
    let mut state = App::new(two_list_document());
    state.handle_key(KeyCode::Char('/'));
    type_str(&mut state, "task 4"); // jumps to (1, 0)
    assert_eq!((state.current_list_index, state.current_item_index), (1, 0));
    state.handle_key(KeyCode::Backspace); // "task " -> first match again
    assert_eq!(state.search.query, "task ");
    assert_eq!((state.current_list_index, state.current_item_index), (0, 0));
}

#[test]
fn search_enter_commits_and_n_cycles_matches() {
    let mut state = App::new(two_list_document());
    state.handle_key(KeyCode::Char('/'));
    type_str(&mut state, "task"); // matches all five, cursor at (0,0)
    state.handle_key(KeyCode::Enter);
    assert_eq!(state.screen, Screen::Checklist);
    assert_eq!(state.search.last.as_deref(), Some("task"));
    for expected in [(0, 1), (0, 2), (1, 0), (1, 1), (0, 0)] {
        state.handle_key(KeyCode::Char('n'));
        assert_eq!(
            (state.current_list_index, state.current_item_index),
            expected
        );
    }
    state.handle_key(KeyCode::Char('N'));
    assert_eq!((state.current_list_index, state.current_item_index), (1, 1));
}

#[test]
fn search_esc_restores_the_pre_search_cursor() {
    let mut state = App::new(two_list_document());
    state.current_list_index = 1;
    state.current_item_index = 1;
    state.handle_key(KeyCode::Char('/'));
    type_str(&mut state, "task 1"); // jumps to (0, 0)
    assert_eq!((state.current_list_index, state.current_item_index), (0, 0));
    state.handle_key(KeyCode::Esc);
    assert_eq!(state.screen, Screen::Checklist);
    assert_eq!((state.current_list_index, state.current_item_index), (1, 1));
}

#[test]
fn n_without_an_active_search_is_a_noop() {
    let mut state = App::new(two_list_document());
    state.handle_key(KeyCode::Char('n'));
    assert_eq!((state.current_list_index, state.current_item_index), (0, 0));
    assert!(state.search.last.is_none());
}

#[test]
fn search_reports_match_position_and_no_match_feedback() {
    let mut state = App::new(two_list_document());
    state.handle_key(KeyCode::Char('/'));
    type_str(&mut state, "task"); // matches all five tasks
    state.handle_key(KeyCode::Enter);
    assert_eq!(
        state.status_message.as_deref(),
        Some("Match 1/5 · n/N to cycle")
    );
    state.handle_key(KeyCode::Char('n'));
    assert_eq!(state.status_message.as_deref(), Some("Match 2/5"));
    state.handle_key(KeyCode::Char('/'));
    type_str(&mut state, "zzz");
    state.handle_key(KeyCode::Enter);
    assert_eq!(
        state.status_message.as_deref(),
        Some("No matches for \"zzz\"")
    );
    assert!(state.status_expiry.is_none(), "no-match message is sticky");
}

#[test]
fn committing_a_single_match_search_omits_the_cycle_nudge() {
    let mut state = App::new(two_list_document());
    state.handle_key(KeyCode::Char('/'));
    type_str(&mut state, "task 4"); // exactly one task
    state.handle_key(KeyCode::Enter);
    assert_eq!(state.status_message.as_deref(), Some("Match 1/1"));
}

// --- Go-to-task overlay (ListPicker) ---

#[test]
fn t_opens_picker_listing_all_tasks_then_filters() {
    let mut state = App::new(two_list_document());
    state.handle_key(KeyCode::Char('T'));
    assert_eq!(state.screen, Screen::ListPicker);
    assert_eq!(
        state.picker_matches().len(),
        5,
        "all tasks listed unfiltered"
    );
    type_str(&mut state, "task 4");
    assert_eq!(state.picker.query, "task 4");
    assert_eq!(state.picker_matches(), vec![(1, 0)], "filtered to one task");
    assert_eq!(
        state.picker.selection, 0,
        "selection reset on filter change"
    );
}

#[test]
fn brace_keys_jump_between_sub_sections_with_feedback() {
    let sub = |level: u8, text: &str| SubHeading {
        level,
        text: text.to_string(),
    };
    let with_section = |line: usize, section: Vec<SubHeading>| {
        let mut item = text_item(line, &format!("task {line}"));
        item.section = section;
        item
    };
    let mut state = App::new(document_with_lists(vec![List {
        title: "L".to_string(),
        banner: None,
        items: vec![
            with_section(1, vec![]),                // 0
            with_section(2, vec![sub(3, "Alpha")]), // 1: starts Alpha
            with_section(3, vec![sub(3, "Alpha")]), // 2
            with_section(4, vec![sub(3, "Beta")]),  // 3: starts Beta
        ],
    }]));
    assert_eq!(state.current_item_index, 0);
    state.handle_key(KeyCode::Char('}'));
    assert_eq!(state.current_item_index, 1);
    assert_eq!(state.status_message.as_deref(), Some("Sub-section: Alpha"));
    state.handle_key(KeyCode::Char('}'));
    assert_eq!(state.current_item_index, 3);
    assert_eq!(state.status_message.as_deref(), Some("Sub-section: Beta"));
    state.handle_key(KeyCode::Char('}'));
    assert_eq!(state.current_item_index, 3);
    assert!(state.status_is_error);
    assert_eq!(
        state.status_message.as_deref(),
        Some("Already at the last sub-section")
    );
    state.handle_key(KeyCode::Char('{'));
    assert_eq!(state.current_item_index, 1);
    assert_eq!(state.status_message.as_deref(), Some("Sub-section: Alpha"));
    state.handle_key(KeyCode::Char('{'));
    assert_eq!(state.current_item_index, 1);
    assert!(state.status_is_error);
}

#[test]
fn brace_keys_report_when_the_list_has_no_sub_sections() {
    let mut state = App::new(two_list_document());
    state.handle_key(KeyCode::Char('}'));
    assert!(state.status_is_error);
    assert_eq!(
        state.status_message.as_deref(),
        Some("No sub-sections in this list")
    );
}

#[test]
fn picker_filter_matches_sub_section_name_without_leaking_into_search() {
    let mut item = text_item(1, "confirm the staging host is idle");
    item.section = vec![SubHeading {
        level: 3,
        text: "Pre-flight checks".to_string(),
    }];
    let plain = text_item(2, "run the deploy");
    let mut state = App::new(document_with_lists(vec![List {
        title: "Deploy".to_string(),
        banner: None,
        items: vec![item, plain],
    }]));

    state.picker.query = "pre-flight".to_string();
    assert_eq!(state.picker_matches(), vec![(0, 0)]);
    assert!(state.find_matches("pre-flight").is_empty());
    state.picker.query = "staging".to_string();
    assert_eq!(state.picker_matches(), vec![(0, 0)]);
    assert_eq!(state.find_matches("staging"), vec![(0, 0)]);
}

#[test]
fn picker_enter_jumps_to_the_selected_task() {
    let mut state = App::new(two_list_document());
    state.handle_key(KeyCode::Char('T'));
    type_str(&mut state, "task 5");
    assert_eq!(state.picker_matches(), vec![(1, 1)]);
    state.handle_key(KeyCode::Enter);
    assert_eq!(state.screen, Screen::Checklist);
    assert_eq!((state.current_list_index, state.current_item_index), (1, 1));
}

#[test]
fn picker_selection_moves_with_arrows_and_ctrl_np_and_clamps() {
    let mut state = App::new(two_list_document());
    state.handle_key(KeyCode::Char('T'));
    assert_eq!(state.picker.selection, 0);
    state.handle_key(KeyCode::Down);
    assert_eq!(state.picker.selection, 1);
    state.handle_key_with_mods(KeyCode::Char('n'), KeyModifiers::control());
    assert_eq!(state.picker.selection, 2);
    state.handle_key(KeyCode::Up);
    state.handle_key_with_mods(KeyCode::Char('p'), KeyModifiers::control());
    assert_eq!(state.picker.selection, 0);
    state.handle_key(KeyCode::Up); // clamps at the top
    assert_eq!(state.picker.selection, 0);
}

#[test]
fn picker_ctrl_d_u_move_half_a_page() {
    let items: Vec<Item> = (1..=12)
        .map(|n| text_item(n, &format!("item {n}")))
        .collect();
    let mut state = App::new(document_with_lists(vec![List {
        title: "L".to_string(),
        banner: None,
        items,
    }]));
    state.handle_key(KeyCode::Char('T'));
    state.picker.viewport_height = 10; // as if rendered with a 10-row list
    state.handle_key_with_mods(KeyCode::Char('d'), KeyModifiers::control());
    assert_eq!(state.picker.selection, 5, "Ctrl-D jumps half a page down");
    state.handle_key_with_mods(KeyCode::Char('u'), KeyModifiers::control());
    assert_eq!(state.picker.selection, 0, "Ctrl-U jumps half a page up");
}

#[test]
fn picker_typing_j_and_k_filters_rather_than_moving() {
    let mut state = App::new(two_list_document());
    state.handle_key(KeyCode::Char('T'));
    state.handle_key(KeyCode::Char('j'));
    state.handle_key(KeyCode::Char('k'));
    assert_eq!(state.picker.query, "jk");
    assert_eq!(
        state.picker.selection, 0,
        "typing does not move the selection"
    );
}

#[test]
fn picker_esc_closes_without_moving_the_cursor() {
    let mut state = App::new(two_list_document());
    state.current_list_index = 1;
    state.current_item_index = 1;
    state.handle_key(KeyCode::Char('T'));
    state.handle_key(KeyCode::Esc);
    assert_eq!(state.screen, Screen::Checklist);
    assert_eq!((state.current_list_index, state.current_item_index), (1, 1));
}

// --- Open link (o) ---

fn item_with_links(line: usize, urls: &[&str]) -> Item {
    let mut item = checkbox(line, false);
    item.body = urls
        .iter()
        .map(|u| BodySpan::Link {
            text: "link".to_string(),
            url: u.to_string(),
        })
        .collect();
    item
}

fn single_item_document(item: Item) -> Document {
    document_with_lists(vec![List {
        title: "L".to_string(),
        banner: None,
        items: vec![item],
    }])
}

#[test]
fn o_requests_opening_a_single_link_and_reports_it() {
    let mut state = App::new(single_item_document(item_with_links(
        1,
        &["https://example.com/a"],
    )));
    state.handle_key(KeyCode::Char('o'));
    assert_eq!(
        state.take_link_open_request().as_deref(),
        Some("https://example.com/a")
    );
    assert!(
        state
            .status_message
            .as_deref()
            .is_some_and(|m| m.contains("Opening"))
    );
}

#[test]
fn o_opens_every_safe_scheme_including_uppercase() {
    for url in [
        "http://example.com/a",
        "https://example.com/a",
        "mailto:ops@example.com",
        "HTTPS://EX.COM/A",
        "http://example.com/a\0/../etc/passwd",
        "https://example.com/a\n-oProxyCommand=x",
    ] {
        let mut state = App::new(single_item_document(item_with_links(1, &[url])));
        state.handle_key(KeyCode::Char('o'));
        assert_eq!(
            state.take_link_open_request().as_deref(),
            Some(url),
            "{url} should open"
        );
    }
}

#[test]
fn o_refuses_unsafe_schemes_with_a_sticky_hint() {
    for url in [
        "file:///etc/passwd",
        "javascript:alert(1)",
        "data:text/html,<script>alert(1)</script>",
        "example.com/no-scheme",
        "--some-flag",
        " http://evil.com",
        "\thttps://evil.com",
        "\u{FEFF}https://evil.com",
        "İTTP://evil.com",
        "HTTP\u{130}://evil.com",
    ] {
        let mut state = App::new(single_item_document(item_with_links(1, &[url])));
        state.handle_key(KeyCode::Char('o'));
        assert!(
            state.link_open_request.is_none(),
            "{url} should not be opened"
        );
        assert_eq!(
            state.status_message.as_deref(),
            Some(format!("Not opened: unsupported link type ({url})").as_str())
        );
        assert!(state.status_expiry.is_none(), "sticky");
    }
}

#[test]
fn o_with_no_link_gives_a_sticky_hint() {
    let mut state = App::new(two_list_document());
    state.handle_key(KeyCode::Char('o'));
    assert!(state.link_open_request.is_none());
    assert_eq!(
        state.status_message.as_deref(),
        Some("Nothing to open: card has no link")
    );
    assert!(state.status_expiry.is_none(), "sticky");
}

#[test]
fn o_with_multiple_links_arms_a_digit_without_hiding_them() {
    let item = item_with_links(1, &["https://example.com/a", "https://example.com/b"]);
    let mut state = App::new(single_item_document(item));
    state.handle_key(KeyCode::Char('o'));
    assert!(state.link_open_request.is_none());
    assert!(state.pending_open_link, "armed for a link number");
    assert_eq!(state.status_message, None, "links stay visible, not hidden");
}

#[test]
fn esc_cancels_the_open_prompt_without_quitting() {
    let item = item_with_links(1, &["https://example.com/a", "https://example.com/b"]);
    let mut state = App::new(single_item_document(item));
    state.handle_key(KeyCode::Char('o'));
    assert!(state.pending_open_link);
    state.handle_key(KeyCode::Esc);
    assert!(!state.pending_open_link, "cancelled");
    assert!(
        !state.should_quit,
        "esc must not quit while arming a link open"
    );
    assert!(state.link_open_request.is_none());
}

#[test]
fn o_then_a_digit_opens_that_link_not_a_list() {
    let item = item_with_links(1, &["https://example.com/a", "https://example.com/b"]);
    let mut state = App::new(single_item_document(item));
    state.handle_key(KeyCode::Char('o'));
    state.handle_key(KeyCode::Char('2'));
    assert!(!state.pending_open_link, "consumed");
    assert_eq!(
        state.take_link_open_request().as_deref(),
        Some("https://example.com/b")
    );
    assert!(
        state
            .status_message
            .as_deref()
            .is_some_and(|m| m.contains("Opening"))
    );
}

#[test]
fn mouse_click_clears_a_pending_open_link_chord() {
    let item = item_with_links(1, &["https://example.com/a", "https://example.com/b"]);
    let mut state = App::new(single_item_document(item));
    state.handle_key(KeyCode::Char('o'));
    assert!(state.pending_open_link, "armed");

    state.overview_rows = vec![(Rect::new(60, 5, 30, 1), OverviewTarget::List(0))];
    state.handle_left_click(65, 5);
    assert!(!state.pending_open_link, "cleared by the click");
}

#[test]
fn mouse_scroll_clears_a_pending_open_link_chord() {
    let item = item_with_links(1, &["https://example.com/a", "https://example.com/b"]);
    let mut state = App::new(single_item_document(item));
    state.handle_key(KeyCode::Char('o'));
    assert!(state.pending_open_link, "armed");

    state.handle_scroll_down();
    assert!(!state.pending_open_link, "cleared by the scroll");
}

#[test]
fn mouse_click_clears_a_pending_gg_chord() {
    let mut state = App::new(two_list_document());
    state.handle_key(KeyCode::Char('g'));
    assert!(state.pending_g, "armed");

    state.overview_rows = vec![(Rect::new(60, 5, 30, 1), OverviewTarget::List(1))];
    state.handle_left_click(65, 5);
    assert!(!state.pending_g, "cleared by the click");
}

#[test]
fn o_then_an_out_of_range_digit_reports_no_such_link() {
    let item = item_with_links(1, &["https://example.com/a", "https://example.com/b"]);
    let mut state = App::new(single_item_document(item));
    state.handle_key(KeyCode::Char('o'));
    state.handle_key(KeyCode::Char('5'));
    assert!(state.link_open_request.is_none());
    assert_eq!(
        state.status_message.as_deref(),
        Some("No link [5] on this card")
    );
}

#[test]
fn o_then_a_digit_for_an_unsafe_scheme_is_refused() {
    let item = item_with_links(1, &["https://example.com/a", "file:///etc/passwd"]);
    let mut state = App::new(single_item_document(item));
    state.handle_key(KeyCode::Char('o'));
    state.handle_key(KeyCode::Char('2'));
    assert!(state.link_open_request.is_none());
    assert_eq!(
        state.status_message.as_deref(),
        Some("Not opened: unsupported link type (file:///etc/passwd)")
    );
}

#[test]
fn o_then_a_non_digit_cancels_the_prompt_and_acts_normally() {
    let mut doc = single_item_document(item_with_links(
        1,
        &["https://example.com/a", "https://example.com/b"],
    ));
    doc.lists[0].items.push(checkbox(2, false));
    let mut state = App::new(doc);
    state.handle_key(KeyCode::Char('o'));
    assert!(state.pending_open_link);
    state.handle_key(KeyCode::Char('j'));
    assert!(!state.pending_open_link, "cancelled");
    assert!(state.link_open_request.is_none());
    assert_eq!(state.current_item_index, 1, "j still navigated");
}

#[test]
fn shift_h_and_l_jump_between_incomplete_lists() {
    let mut state = App::new(two_list_document());
    state.current_list_index = 0;
    state.handle_key(KeyCode::Char('L')); // next incomplete list
    assert_eq!(state.current_list_index, 1);
    state.handle_key(KeyCode::Char('H')); // previous incomplete list
    assert_eq!(state.current_list_index, 0);
}

#[test]
fn navigate_next_stops_at_last_item() {
    let mut state = App::new(two_list_document());
    state.navigate_next();
    state.navigate_next();
    state.navigate_next();
    state.navigate_next();
    assert_eq!(state.current_item_index, 2);
}

#[test]
fn navigate_prev_stops_at_first_item() {
    let mut state = App::new(two_list_document());
    state.navigate_prev();
    state.navigate_prev();
    assert_eq!(state.current_item_index, 0);
}

#[test]
fn navigate_next_stops_on_display_only_items() {
    let document = document_with_lists(vec![List {
        title: "List 1".to_string(),
        banner: None,
        items: vec![checkbox(1, false), display_only(2), checkbox(3, false)],
    }]);
    let mut state = App::new(document);
    state.navigate_next();
    assert_eq!(state.current_item_index, 1);
    assert_eq!(state.current_item().unwrap().kind, ItemKind::DisplayOnly);
}

#[test]
fn jump_to_list_out_of_range_reports_instead_of_moving() {
    let mut state = App::new(two_list_document());
    state.jump_to_list(5);
    assert_eq!(state.current_list_index, 0, "the cursor must not move");
    assert_eq!(
        state.status_message.as_deref(),
        Some("No list 6: this document has 2 lists")
    );
    assert!(state.status_is_error, "sticky, error-colored");
}

#[test]
fn jump_to_list_out_of_range_message_is_singular_for_one_list() {
    let mut state = App::new(document_with_lists(vec![List {
        title: "Only".to_string(),
        banner: None,
        items: vec![checkbox(1, false)],
    }]));
    state.jump_to_list(3);
    assert_eq!(
        state.status_message.as_deref(),
        Some("No list 4: this document has 1 list")
    );
}

#[test]
fn jump_to_list_resets_item_index_and_screen() {
    let mut state = App::new(two_list_document());
    state.navigate_next();
    state.screen = Screen::ListComplete;
    state.jump_to_list(1);
    assert_eq!(state.current_list_index, 1);
    assert_eq!(state.current_item_index, 0);
    assert_eq!(state.screen, Screen::Checklist);
}

#[test]
fn toggle_current_on_display_only_advances_without_editing() {
    let document = document_with_lists(vec![List {
        title: "List 1".to_string(),
        banner: None,
        items: vec![display_only(1), checkbox(2, false)],
    }]);
    let mut state = App::new(document);
    state.current_item_index = 0;
    state.toggle_current();
    assert_eq!(state.current_item_index, 1);
    assert_eq!(
        state.document.lists[0].items[0].kind,
        ItemKind::DisplayOnly,
        "the info item is not edited"
    );
}

#[test]
fn toggle_current_advances_when_more_items_remain() {
    let mut state = App::new(two_list_document());
    state.toggle_current();
    assert_eq!(state.current_item_index, 1);
    assert_eq!(state.screen, Screen::Checklist);
}

#[test]
fn completing_last_item_in_list_shows_list_complete() {
    let document = document_with_lists(vec![
        List {
            title: "List 1".to_string(),
            banner: None,
            items: vec![checkbox(1, false)],
        },
        List {
            title: "List 2".to_string(),
            banner: None,
            items: vec![checkbox(2, false)],
        },
    ]);
    let mut state = App::new(document);
    state.toggle_current();
    assert_eq!(state.screen, Screen::ListComplete);
    assert_eq!(state.current_item_index, 0);
}

#[test]
fn completing_all_lists_shows_all_complete() {
    let document = document_with_lists(vec![List {
        title: "List 1".to_string(),
        banner: None,
        items: vec![checkbox(1, false)],
    }]);
    let mut state = App::new(document);
    state.toggle_current();
    assert_eq!(state.screen, Screen::AllComplete);
}

#[test]
fn uncompleting_item_returns_to_checklist_screen() {
    let document = document_with_lists(vec![List {
        title: "List 1".to_string(),
        banner: None,
        items: vec![checkbox(1, false)],
    }]);
    let mut state = App::new(document);
    state.toggle_current();
    assert_eq!(state.screen, Screen::AllComplete);
    state.toggle_current();
    assert_eq!(state.screen, Screen::Checklist);
    assert_eq!(
        state.current_item().unwrap().kind,
        ItemKind::Checkbox(TaskState::NotStarted)
    );
}

#[test]
fn list_with_only_display_only_items_never_completes() {
    let document = document_with_lists(vec![List {
        title: "List 1".to_string(),
        banner: None,
        items: vec![display_only(1), display_only(2)],
    }]);
    let mut state = App::new(document);
    state.navigate_next();
    state.toggle_current();
    assert_eq!(state.screen, Screen::Checklist);
}

#[test]
fn list_complete_j_advances_to_next_list() {
    let mut state = App::new(two_list_document_first_list_almost_done());
    state.current_item_index = 2;
    state.toggle_current();
    assert_eq!(state.screen, Screen::ListComplete);
    state.handle_key(KeyCode::Char('j'));
    assert_eq!(state.current_list_index, 1);
    assert_eq!(state.screen, Screen::Checklist);
}

#[test]
fn list_complete_k_returns_to_checklist_on_same_list() {
    let mut state = App::new(two_list_document_first_list_almost_done());
    state.current_item_index = 2;
    state.toggle_current();
    assert_eq!(state.screen, Screen::ListComplete);
    state.handle_key(KeyCode::Char('k'));
    assert_eq!(state.current_list_index, 0);
    assert_eq!(state.current_item_index, 2);
    assert_eq!(state.screen, Screen::Checklist);
}

#[test]
fn all_complete_k_returns_to_last_list_last_item() {
    let document = document_with_lists(vec![
        List {
            title: "List 1".to_string(),
            banner: None,
            items: vec![checkbox(1, true)],
        },
        List {
            title: "List 2".to_string(),
            banner: None,
            items: vec![checkbox(2, false), checkbox(3, false)],
        },
    ]);
    let mut state = App::new(document);
    state.jump_to_list(1);
    state.navigate_next();
    state.toggle_current();
    state.navigate_prev();
    state.toggle_current();
    assert_eq!(state.screen, Screen::AllComplete);
    state.handle_key(KeyCode::Char('k'));
    assert_eq!(state.current_list_index, 1);
    assert_eq!(state.current_item_index, 1);
    assert_eq!(state.screen, Screen::Checklist);
}

#[test]
fn number_key_jumps_to_list_from_any_screen() {
    let mut state = App::new(two_list_document_first_list_almost_done());
    state.current_item_index = 2;
    state.toggle_current();
    assert_eq!(state.screen, Screen::ListComplete);
    state.handle_key(KeyCode::Char('2'));
    assert_eq!(state.current_list_index, 1);
    assert_eq!(state.screen, Screen::Checklist);
}

#[test]
fn list_with_zero_items_does_not_panic() {
    let document = document_with_lists(vec![
        List {
            title: "Empty list".to_string(),
            banner: None,
            items: vec![],
        },
        List {
            title: "Real list".to_string(),
            banner: None,
            items: vec![checkbox(1, false)],
        },
    ]);
    let mut state = App::new(document);
    state.current_list_index = 0;
    state.current_item_index = 0;
    assert!(state.current_item().is_none());

    state.navigate_next();
    state.navigate_prev();
    state.toggle_current();
    state.handle_key(KeyCode::Char('y'));
    state.handle_key(KeyCode::Char(' '));
    assert_eq!(state.screen, Screen::Checklist);

    state.jump_to_list(1);
    assert_eq!(
        state.current_item().unwrap().kind,
        ItemKind::Checkbox(TaskState::NotStarted)
    );
}

#[test]
fn q_sets_should_quit() {
    let mut state = App::new(two_list_document());
    state.handle_key(KeyCode::Char('q'));
    assert!(state.should_quit);
}

// --- First-undone selection ---

#[test]
fn startup_selects_first_undone_item() {
    let document = document_with_lists(vec![List {
        title: "S".to_string(),
        banner: None,
        items: vec![checkbox(1, true), checkbox(2, true), checkbox(3, false)],
    }]);
    let state = App::new(document);
    assert_eq!(state.current_list_index, 0);
    assert_eq!(state.current_item_index, 2);
}

#[test]
fn startup_skips_fully_done_first_list() {
    let document = document_with_lists(vec![
        List {
            title: "Done".to_string(),
            banner: None,
            items: vec![checkbox(1, true)],
        },
        List {
            title: "Todo".to_string(),
            banner: None,
            items: vec![checkbox(2, false)],
        },
    ]);
    let state = App::new(document);
    assert_eq!(state.current_list_index, 1);
    assert_eq!(state.current_item_index, 0);
}

#[test]
fn startup_all_done_falls_back_to_first_item() {
    let document = document_with_lists(vec![List {
        title: "S".to_string(),
        banner: None,
        items: vec![checkbox(1, true), checkbox(2, true)],
    }]);
    let state = App::new(document);
    assert_eq!(state.current_list_index, 0);
    assert_eq!(state.current_item_index, 0);
}

#[test]
fn jump_to_list_lands_on_first_undone() {
    let document = document_with_lists(vec![
        List {
            title: "A".to_string(),
            banner: None,
            items: vec![checkbox(1, false)],
        },
        List {
            title: "B".to_string(),
            banner: None,
            items: vec![checkbox(2, true), checkbox(3, false)],
        },
    ]);
    let mut state = App::new(document);
    state.handle_key(KeyCode::Char('2'));
    assert_eq!(state.current_list_index, 1);
    assert_eq!(state.current_item_index, 1, "skips the done item");
}

#[test]
fn complete_list_advance_skips_to_next_incomplete() {
    let document = document_with_lists(vec![
        List {
            title: "A".to_string(),
            banner: None,
            items: vec![checkbox(1, false)],
        },
        List {
            title: "B (all done)".to_string(),
            banner: None,
            items: vec![checkbox(2, true)],
        },
        List {
            title: "C".to_string(),
            banner: None,
            items: vec![checkbox(3, false)],
        },
    ]);
    let mut state = App::new(document);
    state.toggle_current();
    assert_eq!(state.screen, Screen::ListComplete);
    state.handle_key(KeyCode::Char('l'));
    assert_eq!(state.current_list_index, 2);
    assert_eq!(state.current_item_index, 0);
    assert_eq!(state.screen, Screen::Checklist);
}

#[test]
fn complete_last_incomplete_list_advance_goes_all_complete() {
    let document = document_with_lists(vec![
        List {
            title: "A".to_string(),
            banner: None,
            items: vec![checkbox(1, true)],
        },
        List {
            title: "B".to_string(),
            banner: None,
            items: vec![checkbox(2, false)],
        },
    ]);
    let mut state = App::new(document); // starts on B's undone item
    state.toggle_current(); // completes everything -> AllComplete
    assert_eq!(state.screen, Screen::AllComplete);
}

// --- Card-focused navigation and card scrolling ---

#[test]
fn h_l_and_horizontal_arrows_navigate() {
    let mut state = App::new(two_list_document());
    state.handle_key(KeyCode::Char('l'));
    assert_eq!(state.current_item_index, 1);
    state.handle_key(KeyCode::Right);
    assert_eq!(state.current_item_index, 2);
    state.handle_key(KeyCode::Char('h'));
    assert_eq!(state.current_item_index, 1);
    state.handle_key(KeyCode::Left);
    assert_eq!(state.current_item_index, 0);
}

#[test]
fn j_k_and_vertical_arrows_navigate() {
    let mut state = App::new(two_list_document());
    state.card_max_scroll = 5; // overflow present, but j/k must still nav
    state.handle_key(KeyCode::Char('j'));
    assert_eq!(state.current_item_index, 1);
    state.handle_key(KeyCode::Down);
    assert_eq!(state.current_item_index, 2);
    state.handle_key(KeyCode::Char('k'));
    assert_eq!(state.current_item_index, 1);
    state.handle_key(KeyCode::Up);
    assert_eq!(state.current_item_index, 0);
    assert_eq!(state.card_scroll, 0, "navigation keys must not scroll");
}

#[test]
fn ctrl_and_page_keys_scroll_the_card_and_clamp() {
    let mut state = App::new(two_list_document());
    state.card_max_scroll = 5;
    state.card_viewport_height = 4; // half_page = 2, page = 3
    let ctrl = |c| (KeyCode::Char(c), KeyModifiers::control());

    let (code, m) = ctrl('e'); // one line down
    state.handle_key_with_mods(code, m);
    assert_eq!(state.card_scroll, 1);
    let (code, m) = ctrl('d'); // half page down (2)
    state.handle_key_with_mods(code, m);
    assert_eq!(state.card_scroll, 3);
    state.handle_key(KeyCode::PageDown); // page down (3) → clamps at 5
    assert_eq!(state.card_scroll, 5, "clamps at card_max_scroll");
    let (code, m) = ctrl('e');
    state.handle_key_with_mods(code, m);
    assert_eq!(state.card_scroll, 5, "stays clamped at bottom");
    assert_eq!(state.current_item_index, 0, "scrolling must not navigate");

    let (code, m) = ctrl('y'); // one line up
    state.handle_key_with_mods(code, m);
    assert_eq!(state.card_scroll, 4);
    let (code, m) = ctrl('u'); // half page up (2)
    state.handle_key_with_mods(code, m);
    assert_eq!(state.card_scroll, 2);
    state.handle_key(KeyCode::PageUp); // page up (3) → clamps at 0
    assert_eq!(state.card_scroll, 0, "clamps at zero");
}

#[test]
fn navigation_resets_card_scroll() {
    let mut state = App::new(two_list_document());
    state.card_max_scroll = 5;
    state.card_scroll = 3;
    state.navigate_next();
    assert_eq!(state.card_scroll, 0);
    assert_eq!(state.card_max_scroll, 0);
}

#[test]
fn wheel_scrolls_overflowing_card_and_navigates_otherwise() {
    let mut state = App::new(two_list_document());
    state.handle_scroll_down();
    assert_eq!(state.current_item_index, 1);
    state.card_max_scroll = 3;
    state.handle_scroll_down();
    assert_eq!(state.card_scroll, 1);
    assert_eq!(state.current_item_index, 1);
    state.handle_scroll_up();
    assert_eq!(state.card_scroll, 0);
    assert_eq!(state.current_item_index, 1);
}

#[test]
fn wheel_up_navigates_to_previous_item_when_card_fits() {
    let mut state = App::new(two_list_document());
    state.current_item_index = 1;
    state.card_max_scroll = 0;
    state.handle_scroll_up();
    assert_eq!(state.current_item_index, 0);
    assert_eq!(state.card_scroll, 0);
}

#[test]
fn list_complete_l_advances_h_reviews() {
    let mut state = App::new(two_list_document_first_list_almost_done());
    state.current_item_index = 2;
    state.toggle_current();
    assert_eq!(state.screen, Screen::ListComplete);
    state.handle_key(KeyCode::Char('h'));
    assert_eq!(state.screen, Screen::Checklist);
    state.toggle_current(); // untoggle
    state.toggle_current(); // re-toggle -> ListComplete again
    assert_eq!(state.screen, Screen::ListComplete);
    state.handle_key(KeyCode::Char('l'));
    assert_eq!(state.current_list_index, 1);
    assert_eq!(state.screen, Screen::Checklist);
}

// --- Editor request ---

#[test]
fn e_requests_editor_and_is_consumed_once() {
    let mut state = App::new(two_list_document());
    state.handle_key(KeyCode::Char('e'));
    assert!(state.take_editor_request());
    assert!(!state.take_editor_request(), "request is consumed");
}

#[test]
fn e_requests_editor_from_completion_screen() {
    let mut state = App::new(two_list_document());
    state.screen = Screen::AllComplete;
    state.handle_key(KeyCode::Char('e'));
    assert!(state.take_editor_request());
}

// --- Reset with confirmation ---

#[test]
fn r_with_no_done_tasks_skips_prompt() {
    let mut state = App::new(two_list_document());
    state.handle_key(KeyCode::Char('R'));
    assert_eq!(state.screen, Screen::Checklist);
    assert_eq!(
        state.status_message.as_deref(),
        Some("Nothing to reset: no tasks are done")
    );
}

#[test]
fn r_with_done_tasks_opens_confirm_prompt() {
    let mut state = App::new(two_list_document_first_list_almost_done());
    state.handle_key(KeyCode::Char('R'));
    assert_eq!(state.screen, Screen::ConfirmReset);
}

#[test]
fn r_with_only_started_tasks_opens_confirm_prompt() {
    let mut state = App::new(two_list_document());
    state.start_current();
    state.handle_key(KeyCode::Char('R'));
    assert_eq!(state.screen, Screen::ConfirmReset);
}

#[test]
fn confirm_reset_yes_clears_all_and_persists() {
    let mut state = App::new(two_list_document_first_list_almost_done());
    state.handle_key(KeyCode::Char('R'));
    state.handle_key(KeyCode::Char('y'));
    assert_eq!(state.screen, Screen::Checklist);
    assert_eq!(checkbox_stats(&state.document).0, 0, "all tasks not done");
    state.reload_if_changed();
    assert_ne!(
        state.status_message.as_deref(),
        Some("Reloaded: file changed on disk")
    );
}

#[test]
fn confirm_reset_cancel_restores_screen_and_leaves_tasks() {
    let mut state = App::new(two_list_document_first_list_almost_done());
    let done_before = checkbox_stats(&state.document).0;
    state.handle_key(KeyCode::Char('R'));
    assert_eq!(state.screen, Screen::ConfirmReset);
    state.handle_key(KeyCode::Esc);
    assert_eq!(state.screen, Screen::Checklist);
    assert!(!state.should_quit, "Esc cancels, does not quit");
    assert_eq!(checkbox_stats(&state.document).0, done_before);
}

#[test]
fn confirm_reset_from_all_complete_cancels_back_to_all_complete() {
    let document = document_with_lists(vec![List {
        title: "S".to_string(),
        banner: None,
        items: vec![checkbox(1, true)],
    }]);
    let mut state = App::new(document);
    state.screen = Screen::AllComplete;
    state.handle_key(KeyCode::Char('R'));
    assert_eq!(state.screen, Screen::ConfirmReset);
    state.handle_key(KeyCode::Char('n'));
    assert_eq!(state.screen, Screen::AllComplete);
}

#[test]
fn confirm_reset_enter_does_not_confirm() {
    let mut state = App::new(two_list_document_first_list_almost_done());
    let done_before = checkbox_stats(&state.document).0;
    state.handle_key(KeyCode::Char('R'));
    assert_eq!(state.screen, Screen::ConfirmReset);
    state.handle_key(KeyCode::Enter);
    assert_eq!(state.screen, Screen::Checklist, "Enter cancels");
    assert_eq!(
        checkbox_stats(&state.document).0,
        done_before,
        "Enter must not reset"
    );
}

fn all_done_document() -> Document {
    document_with_lists(vec![List {
        title: "S".to_string(),
        banner: None,
        items: vec![checkbox(1, true), checkbox(2, true)],
    }])
}

#[test]
fn quit_when_all_done_opens_confirm_quit_reset() {
    let mut state = App::new(all_done_document());
    state.handle_key(KeyCode::Char('q'));
    assert_eq!(state.screen, Screen::ConfirmQuitReset);
    assert!(!state.should_quit, "prompt shown, not quit yet");
}

#[test]
fn confirm_quit_reset_yes_resets_and_quits() {
    let mut state = App::new(all_done_document());
    state.handle_key(KeyCode::Char('q'));
    state.handle_key(KeyCode::Char('y'));
    assert!(state.should_quit, "y quits");
    assert_eq!(checkbox_stats(&state.document).0, 0, "y resets all tasks");
}

#[test]
fn confirm_quit_reset_no_quits_without_resetting() {
    let mut state = App::new(all_done_document());
    let done_before = checkbox_stats(&state.document).0;
    state.handle_key(KeyCode::Char('q'));
    state.handle_key(KeyCode::Char('n'));
    assert!(state.should_quit, "n quits");
    assert_eq!(
        checkbox_stats(&state.document).0,
        done_before,
        "n must not reset"
    );
}

#[test]
fn confirm_quit_reset_esc_cancels() {
    let mut state = App::new(all_done_document());
    state.handle_key(KeyCode::Char('q'));
    assert_eq!(state.screen, Screen::ConfirmQuitReset);
    state.handle_key(KeyCode::Esc);
    assert!(!state.should_quit, "Esc cancels, stays running");
    assert_eq!(state.screen, Screen::Checklist);
}

#[test]
fn auto_copy_stays_silent_without_a_single_candidate() {
    let mut state = App::new(two_list_document());
    state.auto_copy = true;
    state.maybe_auto_copy();
    assert_eq!(state.status_message, None, "no code candidate -> silent");

    let (si, ii) = (state.current_list_index, state.current_item_index);
    state.document.lists[si].items[ii].code_blocks = vec!["one".to_string(), "two".to_string()];
    state.maybe_auto_copy();
    assert_eq!(state.status_message, None, "ambiguous set -> silent");
}

// Copy alert paths (0 or many candidates) never touch a clipboard
// backend, so they are safe to test headless. The Copied* paths are
// manual verification.

#[test]
fn copy_with_no_code_shows_alert() {
    let mut state = App::new(two_list_document());
    state.handle_key(KeyCode::Char('y'));
    assert_eq!(
        state.status_message.as_deref(),
        Some("Nothing to copy: item has no code")
    );
}

#[test]
fn copy_with_multiple_candidates_shows_alert() {
    let mut document = two_list_document();
    document.lists[0].items[0].code_blocks = vec!["first".to_string(), "second".to_string()];
    let mut state = App::new(document);
    state.handle_key(KeyCode::Char('y'));
    assert_eq!(
        state.status_message.as_deref(),
        Some("Not copied: item has 2 code candidates")
    );
}

#[test]
fn click_inside_card_copies_current_command() {
    let mut state = App::new(two_list_document());
    state.card_rect = Some(Rect::new(10, 5, 40, 10));
    state.handle_left_click(15, 8);
    assert_eq!(
        state.status_message.as_deref(),
        Some("Nothing to copy: item has no code")
    );

    let mut document = two_list_document();
    document.lists[0].items[0].code_blocks = vec!["a".to_string(), "b".to_string()];
    let mut state = App::new(document);
    state.card_rect = Some(Rect::new(10, 5, 40, 10));
    state.handle_left_click(12, 6);
    assert_eq!(
        state.status_message.as_deref(),
        Some("Not copied: item has 2 code candidates")
    );
}

#[test]
fn click_on_code_region_copies_that_specific_row() {
    let mut document = two_list_document();
    document.lists[0].items[0].code_blocks = vec!["a".to_string(), "b".to_string()];
    let mut state = App::new(document);
    state.card_rect = Some(Rect::new(10, 5, 40, 10));
    state.code_regions = vec![(Rect::new(11, 7, 38, 1), "b".to_string())];

    state.handle_left_click(15, 7);
    let msg = state.status_message.as_deref().unwrap_or("");
    assert!(
        !msg.contains("candidates"),
        "specific-region click overrides the ambiguous hint: {msg:?}"
    );

    state.handle_left_click(15, 6);
    assert_eq!(
        state.status_message.as_deref(),
        Some("Not copied: item has 2 code candidates")
    );
}

#[test]
fn click_outside_card_or_off_checklist_is_ignored() {
    let mut state = App::new(two_list_document());
    state.card_rect = Some(Rect::new(10, 5, 40, 10));
    state.handle_left_click(2, 2); // outside the card rect
    assert_eq!(
        state.status_message, None,
        "click outside the card is a no-op"
    );

    state.screen = Screen::AllComplete;
    state.handle_left_click(15, 8); // inside the rect, but wrong screen
    assert_eq!(
        state.status_message, None,
        "click ignored off the checklist"
    );
}

#[test]
fn click_on_overview_item_row_focuses_that_task() {
    let mut state = App::new(two_list_document());
    state.overview_rows = vec![(Rect::new(60, 5, 30, 1), OverviewTarget::Item(1, 1))];

    state.handle_left_click(70, 5);
    assert_eq!(state.current_list_index, 1);
    assert_eq!(state.current_item_index, 1);
    assert_eq!(state.screen, Screen::Checklist);
}

#[test]
fn click_on_overview_list_row_jumps_to_that_list() {
    let mut state = App::new(two_list_document());
    state.overview_rows = vec![(Rect::new(60, 3, 30, 1), OverviewTarget::List(1))];

    state.handle_left_click(65, 3);
    assert_eq!(state.current_list_index, 1);
    assert_eq!(state.current_item_index, 0);
    assert_eq!(state.screen, Screen::Checklist);
}

#[test]
fn click_on_overview_works_from_completion_screen() {
    let mut state = App::new(two_list_document());
    state.screen = Screen::AllComplete;
    state.overview_rows = vec![(Rect::new(60, 5, 30, 1), OverviewTarget::Item(1, 0))];

    state.handle_left_click(70, 5);
    assert_eq!((state.current_list_index, state.current_item_index), (1, 0));
    assert_eq!(state.screen, Screen::Checklist);
}

#[test]
fn click_on_overview_ignored_while_a_modal_is_open() {
    let mut state = App::new(two_list_document());
    let before = (state.current_list_index, state.current_item_index);
    state.screen = Screen::Help;
    state.overview_rows = vec![(Rect::new(60, 5, 30, 1), OverviewTarget::Item(1, 1))];

    state.handle_left_click(70, 5);
    assert_eq!(
        (state.current_list_index, state.current_item_index),
        before,
        "modal click leaves the cursor put"
    );
    assert_eq!(state.screen, Screen::Help, "still on the modal");
}

#[test]
fn click_on_overview_marker_toggles_item_without_moving_cursor() {
    let mut state = App::new(two_list_document());
    let before = (state.current_list_index, state.current_item_index);
    state.overview_rows = vec![(Rect::new(60, 5, 6, 1), OverviewTarget::Toggle(1, 0))];

    state.handle_left_click(61, 5);
    assert!(matches!(
        state.document.lists[1].items[0].kind,
        ItemKind::Checkbox(TaskState::Done)
    ));
    assert_eq!(
        (state.current_list_index, state.current_item_index),
        before,
        "cursor stays put on a marker toggle"
    );
    assert_eq!(state.status_message.as_deref(), Some("Marked done"));

    state.handle_left_click(61, 5);
    assert!(matches!(
        state.document.lists[1].items[0].kind,
        ItemKind::Checkbox(TaskState::NotStarted)
    ));
    assert_eq!(state.status_message.as_deref(), Some("Marked not done"));
}

#[test]
fn toggle_item_is_a_no_op_on_a_display_only_item() {
    let mut document = two_list_document();
    document.lists[0].items[1].kind = ItemKind::DisplayOnly;
    let mut state = App::new(document);
    state.toggle_item(0, 1);
    assert!(matches!(
        state.document.lists[0].items[1].kind,
        ItemKind::DisplayOnly
    ));
}

#[test]
fn marker_toggle_demotes_a_stale_completion_screen_but_never_promotes() {
    let document = document_with_lists(vec![List {
        title: "Only".to_string(),
        banner: None,
        items: vec![checkbox(1, true), checkbox(2, true)],
    }]);
    let mut state = App::new(document);
    state.screen = Screen::AllComplete;

    state.toggle_item(0, 0);
    assert_eq!(state.screen, Screen::Checklist);

    state.toggle_item(0, 0);
    assert_eq!(
        state.screen,
        Screen::Checklist,
        "a marker toggle never promotes to a completion screen"
    );
}

#[test]
fn ephemeral_status_expires_after_timeout() {
    let mut state = App::new(two_list_document());
    state.set_status("Copied to clipboard".to_string());
    let exp = state
        .status_expiry
        .expect("ephemeral message has an expiry");
    state.expire_status(exp - 1000);
    assert_eq!(state.status_message.as_deref(), Some("Copied to clipboard"));
    state.expire_status(exp);
    assert_eq!(state.status_message, None);
    assert_eq!(state.status_expiry, None);
}

#[test]
fn sticky_error_never_auto_expires() {
    let mut state = App::new(two_list_document());
    state.set_error("Something failed".to_string());
    assert_eq!(state.status_expiry, None, "sticky messages carry no expiry");
    assert!(state.status_is_error, "set_error is flagged as an error");
    state.expire_status(3_600_000);
    assert_eq!(
        state.status_message.as_deref(),
        Some("Something failed"),
        "sticky message survives auto-expiry"
    );
}

#[test]
fn no_code_copy_hint_is_sticky() {
    let mut state = App::new(two_list_document());
    state.card_rect = Some(Rect::new(10, 5, 40, 10));
    state.handle_left_click(15, 8); // no-code item -> "Nothing to copy"
    assert_eq!(
        state.status_message.as_deref(),
        Some("Nothing to copy: item has no code")
    );
    assert_eq!(state.status_expiry, None, "the no-code hint is sticky");
    assert!(
        state.status_is_error,
        "a 'nothing to copy' hint is an error"
    );
}

#[test]
fn set_error_is_sticky_and_flagged() {
    let mut state = App::new(two_list_document());
    state.set_error("Something failed".to_string());
    assert_eq!(state.status_message.as_deref(), Some("Something failed"));
    assert_eq!(state.status_expiry, None, "error messages are sticky");
    assert!(state.status_is_error);
}

#[test]
fn passive_status_clears_the_error_flag() {
    let mut state = App::new(two_list_document());
    state.set_error("Something failed".to_string());
    assert!(state.status_is_error);
    state.set_status("Copied to clipboard".to_string());
    assert!(!state.status_is_error, "set_status clears the error flag");
    state.set_error("Once more".to_string());
    state.clear_status();
    assert!(!state.status_is_error, "clear_status clears the error flag");
}

#[test]
fn toggle_current_reports_error_and_does_not_advance_when_write_fails() {
    let document = document_with_missing_file(vec![List {
        title: "L".to_string(),
        banner: None,
        items: vec![checkbox(1, false), checkbox(2, false)],
    }]);
    let mut state = App::new(document);
    state.toggle_current();
    assert!(
        state
            .status_message
            .as_deref()
            .is_some_and(|m| m.contains("Write failed")),
        "got {:?}",
        state.status_message
    );
    assert!(state.status_is_error);
    assert_eq!(state.current_item_index, 0, "did not advance");
    assert_eq!(
        state.current_item().unwrap().kind,
        ItemKind::Checkbox(TaskState::NotStarted),
        "in-memory state rolled back since the toggle was never saved"
    );
}

#[test]
fn failed_toggle_does_not_leave_a_phantom_done_item_that_falsely_completes_the_list() {
    let document = document_with_lists(vec![List {
        title: "L".to_string(),
        banner: None,
        items: vec![checkbox(1, true), checkbox(2, false), checkbox(3, false)],
    }]);
    let mut state = App::new(document);
    let path = state.disk.clone();
    state.current_item_index = 1; // item 2, the one whose write will fail

    path.remove();
    state.toggle_current();
    assert!(state.status_is_error, "the write failure must be reported");
    assert_eq!(
        state.document.lists[0].items[1].kind,
        ItemKind::Checkbox(TaskState::NotStarted),
        "rolled back — must not silently become a phantom done item"
    );
    assert_eq!(
        state.screen,
        Screen::Checklist,
        "no premature completion screen"
    );

    path.write("");
    state.clear_status();
    state.current_item_index = 2; // item 3, genuinely not done
    state.toggle_current();
    assert!(!state.status_is_error, "the retry succeeds");
    assert_eq!(
        state.screen,
        Screen::Checklist,
        "item 2 is still genuinely not-done, so the list must not appear complete"
    );
}

#[test]
fn toggle_refuses_and_reloads_when_disk_content_changed_since_load() {
    let document = document_with_lists(vec![List {
        title: "L".to_string(),
        banner: None,
        items: vec![checkbox(1, false)],
    }]);
    let mut state = App::new(document);
    let path = state.disk.clone();

    let external_content = "## Other\n\n- [x] external change\n";
    path.write(external_content);

    state.toggle_current();

    assert!(state.status_is_error, "got {:?}", state.status_message);
    assert!(
        state
            .status_message
            .as_deref()
            .is_some_and(|m| m.contains("changed on disk")),
        "got {:?}",
        state.status_message
    );
    assert_eq!(path.text(), external_content);
    assert_eq!(state.document.lists[0].title, "Other");
}

#[test]
fn toggle_succeeds_normally_when_disk_content_is_unchanged() {
    let document = document_with_lists(vec![List {
        title: "L".to_string(),
        banner: None,
        items: vec![checkbox(1, false)],
    }]);
    let mut state = App::new(document);

    state.toggle_current();

    assert!(!state.status_is_error, "got {:?}", state.status_message);
}

#[test]
fn write_back_can_still_overwrite_a_change_that_lands_after_the_diverged_check() {
    let document = document_with_lists(vec![List {
        title: "L".to_string(),
        banner: None,
        items: vec![checkbox(1, false)],
    }]);
    let state = App::new(document);
    let path = state.disk.clone();

    assert!(
        !state.disk_content_diverged(),
        "nothing external has happened yet"
    );

    let external_content = "## Other\n\n- [x] external change\n";
    path.write(external_content);

    path.write(document_contents(&state.document));

    assert_ne!(
        path.text(),
        external_content,
        "the external writer's content is silently overwritten here -- \
         this is the accepted gap, not a regression"
    );
}

#[test]
fn commit_write_updates_content_hash_so_a_second_toggle_does_not_false_positive() {
    let document = document_with_lists(vec![List {
        title: "L".to_string(),
        banner: None,
        items: vec![checkbox(1, false), checkbox(2, false)],
    }]);
    let mut state = App::new(document);

    state.toggle_current();
    assert!(
        !state.status_is_error,
        "first toggle: got {:?}",
        state.status_message
    );

    state.toggle_current();
    assert!(
        !state.status_is_error,
        "second toggle must not see our own prior write as a conflict: got {:?}",
        state.status_message
    );
}

#[test]
fn start_current_reports_error_when_write_fails() {
    let document = document_with_missing_file(vec![List {
        title: "L".to_string(),
        banner: None,
        items: vec![checkbox(1, false)],
    }]);
    let mut state = App::new(document);
    state.start_current();
    assert!(
        state
            .status_message
            .as_deref()
            .is_some_and(|m| m.contains("Write failed")),
        "got {:?}",
        state.status_message
    );
    assert!(state.status_is_error);
    assert_eq!(
        state.current_item().unwrap().kind,
        ItemKind::Checkbox(TaskState::NotStarted),
        "in-memory state rolled back since the write was never saved"
    );
}

#[test]
fn reset_all_reports_error_when_write_fails() {
    let document = document_with_missing_file(vec![List {
        title: "L".to_string(),
        banner: None,
        items: vec![checkbox(1, true)],
    }]);
    let mut state = App::new(document);
    state.handle_key(KeyCode::Char('R'));
    state.handle_key(KeyCode::Char('y'));
    assert!(
        state
            .status_message
            .as_deref()
            .is_some_and(|m| m.contains("Write failed")),
        "got {:?}",
        state.status_message
    );
    assert!(state.status_is_error);
    assert_eq!(
        state.document.lists[0].items[0].kind,
        ItemKind::Checkbox(TaskState::Done)
    );
}

#[test]
fn undo_reports_error_when_write_fails_mid_session() {
    let mut state = App::new(two_list_document());
    state.toggle_current();
    assert!(!state.status_is_error, "the initial toggle succeeds");
    let path = state.disk.clone();
    path.remove();

    state.undo();
    assert!(
        state
            .status_message
            .as_deref()
            .is_some_and(|m| m.contains("Undo failed")),
        "got {:?}",
        state.status_message
    );
    assert!(state.status_is_error);
    assert_eq!(
        state.document.lists[0].items[0].kind,
        ItemKind::Checkbox(TaskState::Done),
        "document rolled back to its pre-undo state"
    );
    assert_eq!(
        state.undo_stack.len(),
        1,
        "popped entry restored for a retry"
    );
}

#[test]
fn redo_reports_error_when_write_fails_mid_session() {
    let mut state = App::new(two_list_document());
    state.toggle_current();
    assert!(!state.status_is_error, "the initial toggle succeeds");
    state.undo();
    assert!(!state.status_is_error, "the undo succeeds");

    let path = state.disk.clone();
    path.remove();

    state.redo();
    assert!(
        state
            .status_message
            .as_deref()
            .is_some_and(|m| m.contains("Redo failed")),
        "got {:?}",
        state.status_message
    );
    assert!(state.status_is_error);
    assert_eq!(
        state.document.lists[0].items[0].kind,
        ItemKind::Checkbox(TaskState::NotStarted),
        "document rolled back to its pre-redo state"
    );
    assert_eq!(
        state.redo_stack.len(),
        1,
        "popped entry restored for a retry"
    );
}

#[test]
fn reset_with_nothing_done_is_flagged_error() {
    let mut state = App::new(two_list_document());
    state.request_reset();
    assert_eq!(
        state.status_message.as_deref(),
        Some("Nothing to reset: no tasks are done")
    );
    assert!(state.status_is_error);
}

fn write_real_file(contents: &str) -> Disk {
    Disk::new(Some(contents.as_bytes().to_vec()))
}

fn touch_with_new_mtime(path: &Disk, contents: &str) {
    path.write(contents);
}

#[test]
fn reload_picks_up_external_change() {
    let path = write_real_file("## List 1\n\n- [ ] `task one`\n");
    let mut state = App::open(&path);

    touch_with_new_mtime(&path, "## List 1\n\n- [ ] `task one`\n- [ ] `task two`\n");
    state.reload_if_changed();

    assert_eq!(state.current_list().items.len(), 2);
    assert_eq!(
        state.status_message.as_deref(),
        Some("Reloaded: file changed on disk")
    );
}

#[test]
fn reload_if_changed_returns_true_only_when_new_content_actually_loaded() {
    let path = write_real_file("## List 1\n\n- [ ] `task one`\n");
    let mut state = App::open(&path);

    assert!(!state.reload_if_changed(), "nothing changed yet");

    touch_with_new_mtime(&path, "## List 1\n\n- [ ] `task one`\n- [ ] `task two`\n");
    assert!(state.reload_if_changed(), "a real external edit landed");

    assert!(
        !state.reload_if_changed(),
        "already reloaded, mtime/size unchanged since"
    );
}

#[test]
fn reload_if_changed_returns_false_when_reload_is_skipped_or_fails() {
    let path = write_real_file("## List 1\n\n- [ ] `task one`\n");
    let mut state = App::open(&path);

    touch_with_new_mtime(&path, "Just a paragraph, no headings or lists.\n");
    assert!(
        !state.reload_if_changed(),
        "a skipped reload (no checklist items) is not a real reload"
    );
    assert_eq!(
        state.current_list().items.len(),
        1,
        "last good document kept"
    );
}

#[test]
fn failed_reload_does_not_advance_the_write_conflict_fingerprint() {
    let path = write_real_file("## List 1\n\n- [ ] `task one`\n");
    let mut state = App::open(&path);
    let good_hash = state.file_content_hash;

    path.write([0xFF, 0xFE, 0xFD]);

    assert!(
        !state.reload_if_changed(),
        "a failed parse is not a real reload"
    );
    assert_eq!(
        state.current_list().items.len(),
        1,
        "last good document kept in memory"
    );
    assert_eq!(
        state.file_content_hash, good_hash,
        "fingerprint must stay pinned to the last good content, not the broken save"
    );
    assert!(
        state.disk_content_diverged(),
        "the broken content on disk must still read as diverged from what markcheck knows"
    );
}

#[test]
fn request_external_edit_sync_queues_a_git_sync_request() {
    let mut state = App::new(two_list_document());
    assert!(state.take_git_sync_request().is_none());
    state.request_external_edit_sync("vim");
    assert_eq!(
        state.take_git_sync_request().map(|p| p.description),
        Some("Edited in vim".to_string())
    );
}

#[test]
fn reload_catches_same_mtime_change_via_size_cross_check() {
    let path = write_real_file("## List 1\n\n- [ ] `task one`\n");
    let mut state = App::open(&path);
    let original_mtime = path.mtime();

    path.write("## List 1\n\n- [ ] `task one`\n- [ ] `task two`\n");
    path.set_mtime(original_mtime);

    state.reload_if_changed();

    assert_eq!(
        state.current_list().items.len(),
        2,
        "size differed even though mtime was pinned to the same value"
    );
}

#[test]
fn reload_is_noop_when_file_unchanged() {
    let path = write_real_file("## List 1\n\n- [ ] `task one`\n");
    let mut state = App::open(&path);

    state.reload_if_changed();
    assert_eq!(state.status_message, None);
}

#[test]
fn own_write_does_not_trigger_spurious_reload() {
    let path = write_real_file("## List 1\n\n- [ ] `task one`\n");
    let mut state = App::open(&path);

    state.toggle_current();
    assert_eq!(state.status_message, None);

    state.reload_if_changed();
    assert_eq!(
        state.status_message, None,
        "toggling our own file should not look like an external change"
    );
}

#[test]
fn reload_preserves_cursor_by_title_and_line_number() {
    let path = write_real_file(
        "## List A\n\n- [ ] `alpha`\n- [ ] `bravo`\n\n## List B\n\n- [ ] `charlie`\n",
    );
    let mut state = App::open(&path);
    state.jump_to_list(1);

    touch_with_new_mtime(
        &path,
        "## List A\n\n- [ ] `alpha`\n- [ ] `bravo`\n\n## List New\n\n- [ ] `extra`\n\n## List B\n\n- [ ] `charlie`\n",
    );
    state.reload_if_changed();

    assert_eq!(state.current_list().title, "List B");
    assert_eq!(state.current_item().unwrap().display_text, "charlie");
}

#[test]
fn reload_disambiguates_duplicate_list_titles_by_occurrence() {
    let path = write_real_file(
        "## Servers\n\n- [ ] `first-list-task`\n\n## Servers\n\n- [ ] `second-list-task`\n",
    );
    let mut state = App::open(&path);
    state.jump_to_list(1);
    assert_eq!(
        state.current_item().unwrap().display_text,
        "second-list-task"
    );

    touch_with_new_mtime(
        &path,
        "## Other\n\n- [ ] `unrelated`\n\n## Servers\n\n- [ ] `first-list-task`\n\n## Servers\n\n- [ ] `second-list-task`\n",
    );
    state.reload_if_changed();

    assert_eq!(state.current_list().title, "Servers");
    assert_eq!(
        state.current_item().unwrap().display_text,
        "second-list-task",
        "must stay on the second \"Servers\" list, not snap back to the first"
    );
}

#[test]
fn reload_skips_when_new_content_has_no_lists() {
    let path = write_real_file("## List 1\n\n- [ ] `task one`\n");
    let mut state = App::open(&path);

    touch_with_new_mtime(&path, "Just a paragraph, no headings or lists.\n");
    state.reload_if_changed();

    assert_eq!(state.current_list().title, "List 1");
    assert!(
        state
            .status_message
            .as_deref()
            .is_some_and(|m| m.starts_with("Reload skipped: file has no checklist items")),
        "{:?}",
        state.status_message
    );
    assert!(
        state.status_is_error,
        "sticky, not ephemeral: the condition persists until the file has tasks again, \
         and an expiring message is how the overwrite below went unnoticed"
    );
}

#[test]
fn skipped_reload_does_not_advance_the_write_conflict_fingerprint() {
    let path = write_real_file("## List 1\n\n- [ ] `task one`\n");
    let mut state = App::open(&path);
    let good_hash = state.file_content_hash;

    touch_with_new_mtime(
        &path,
        "Rewritten from scratch. Still drafting, no tasks yet.\n",
    );

    assert!(
        !state.reload_if_changed(),
        "a document with no lists is not a real reload"
    );
    assert_eq!(
        state.current_list().items.len(),
        1,
        "last good document kept in memory"
    );
    assert_eq!(
        state.file_content_hash, good_hash,
        "fingerprint must stay pinned to the content the in-memory document came from"
    );
    assert!(
        state.disk_content_diverged(),
        "the rewritten file must still read as diverged from what markcheck knows"
    );
}

#[test]
fn a_write_after_a_skipped_reload_is_refused_and_leaves_the_file_alone() {
    let path = write_real_file("## Tasks\n\n- [ ] alpha\n- [ ] beta\n");
    let mut state = App::open(&path);

    let rewritten = "# Runbook\n\nRewritten from scratch. No tasks yet -- still drafting.\n";
    touch_with_new_mtime(&path, rewritten);
    state.reload_if_changed();

    state.toggle_current();

    assert_eq!(
        path.text(),
        rewritten,
        "the user's rewrite must survive the toggle untouched"
    );
    assert!(
        state
            .status_message
            .as_deref()
            .is_some_and(|m| m.contains("File changed on disk")),
        "the refusal must be reported: {:?}",
        state.status_message
    );
}

#[test]
fn reload_detects_deleted_file_and_blocks_writes() {
    let path = write_real_file("## S\n\n- [ ] `task`\n");
    let mut state = App::open(&path);

    path.remove();
    state.reload_if_changed();

    assert!(state.file_deleted, "flag must be set after deletion");
    assert_eq!(
        state.status_message.as_deref(),
        Some("File deleted — changes cannot be saved"),
    );
    assert_eq!(state.status_expiry, None, "deletion message is sticky");

    state.toggle_current();
    assert_eq!(
        state.status_message.as_deref(),
        Some("File was deleted — cannot save changes"),
    );
}

#[test]
fn reload_detects_deleted_file_only_once() {
    let path = write_real_file("## S\n\n- [ ] `task`\n");
    let mut state = App::open(&path);

    path.remove();
    state.reload_if_changed();
    state.status_message = None;
    state.reload_if_changed();

    assert_eq!(state.status_message, None, "second tick must not re-emit");
}

#[test]
fn reload_clears_deleted_flag_when_file_restored() {
    let path = write_real_file("## S\n\n- [ ] `task`\n");
    let mut state = App::open(&path);

    path.remove();
    state.reload_if_changed();
    assert!(state.file_deleted);

    touch_with_new_mtime(&path, "## S\n\n- [ ] `task`\n");
    state.reload_if_changed();

    assert!(!state.file_deleted, "flag must clear when file is restored");
    assert_eq!(
        state.status_message.as_deref(),
        Some("File restored — reloaded"),
    );
}

#[test]
fn reset_is_blocked_when_file_deleted() {
    let path = write_real_file("## S\n\n- [x] `task`\n");
    let mut state = App::open(&path);

    path.remove();
    state.file_deleted = true;
    state.screen = Screen::ConfirmReset;
    state.handle_key(KeyCode::Char('y'));
    assert_eq!(
        state.status_message.as_deref(),
        Some("File was deleted — cannot save changes"),
    );
}

// --- Undo / redo of state-changing actions ---

#[test]
fn undo_reverts_a_toggle_and_focuses_the_task() {
    let mut state = App::new(two_list_document());
    state.toggle_current(); // item 0 -> Done, auto-advances to item 1
    assert_eq!(state.current_item_index, 1);

    state.undo();
    assert_eq!(
        state.current_list().items[0].kind,
        ItemKind::Checkbox(TaskState::NotStarted),
        "the toggle is reverted",
    );
    assert_eq!(
        state.current_item_index, 0,
        "cursor focuses the changed task"
    );
    assert_eq!(state.screen, Screen::Checklist);
    assert_eq!(
        state.status_message.as_deref(),
        Some("Undo: marked not done")
    );
    assert!(!state.status_is_error);
}

#[test]
fn redo_reapplies_an_undone_toggle() {
    let mut state = App::new(two_list_document());
    state.toggle_current();
    state.undo();
    state.redo();
    assert_eq!(
        state.current_list().items[0].kind,
        ItemKind::Checkbox(TaskState::Done),
        "redo restores the toggle",
    );
    assert_eq!(state.status_message.as_deref(), Some("Redo: marked done"));
}

#[test]
fn undo_reverts_a_started_toggle() {
    let mut state = App::new(two_list_document());
    state.start_current(); // item 0 -> Started
    state.undo();
    assert_eq!(
        state.current_list().items[0].kind,
        ItemKind::Checkbox(TaskState::NotStarted),
    );
}

#[test]
fn undo_reverts_a_reset_and_reports_the_count() {
    let mut state = App::new(two_list_document());
    state.toggle_current(); // item 0 done (advances)
    state.current_item_index = 1;
    state.toggle_current(); // item 1 done
    state.reset_all(); // both back to not-done
    assert!(
        state
            .current_list()
            .items
            .iter()
            .all(|i| i.kind == ItemKind::Checkbox(TaskState::NotStarted))
    );

    state.undo();
    assert_eq!(
        state.current_list().items[0].kind,
        ItemKind::Checkbox(TaskState::Done),
    );
    assert_eq!(
        state.current_list().items[1].kind,
        ItemKind::Checkbox(TaskState::Done),
    );
    assert_eq!(
        state.status_message.as_deref(),
        Some("Undo: restored 2 tasks")
    );
}

#[test]
fn undo_reverts_an_overview_click_toggle() {
    let mut state = App::new(two_list_document());
    state.toggle_item(1, 0); // toggle a task in the *other* list, cursor stays
    assert_eq!(
        state.document.lists[1].items[0].kind,
        ItemKind::Checkbox(TaskState::Done),
    );
    state.undo();
    assert_eq!(
        state.document.lists[1].items[0].kind,
        ItemKind::Checkbox(TaskState::NotStarted),
    );
}

#[test]
fn undo_on_empty_history_reports_nothing_to_undo() {
    let mut state = App::new(two_list_document());
    state.undo();
    assert_eq!(state.status_message.as_deref(), Some("Nothing to undo"));
    assert!(state.status_is_error);
}

#[test]
fn redo_on_empty_history_reports_nothing_to_redo() {
    let mut state = App::new(two_list_document());
    state.redo();
    assert_eq!(state.status_message.as_deref(), Some("Nothing to redo"));
    assert!(state.status_is_error);
}

#[test]
fn a_fresh_action_clears_the_redo_stack() {
    let mut state = App::new(two_list_document());
    state.toggle_current(); // undo point 1
    state.undo(); // pushes a redo entry
    assert_eq!(state.redo_stack.len(), 1);

    state.toggle_current(); // a fresh change invalidates redo
    assert!(state.redo_stack.is_empty());
    state.redo();
    assert_eq!(state.status_message.as_deref(), Some("Nothing to redo"));
}

#[test]
fn undo_history_is_capped() {
    let mut state = App::new(two_list_document());
    for _ in 0..(UNDO_HISTORY_CAP + 10) {
        state.start_current(); // toggles item 0 started on/off, each an entry
    }
    assert_eq!(state.undo_stack.len(), UNDO_HISTORY_CAP);
}

#[test]
fn undo_is_blocked_when_file_deleted() {
    let mut state = App::new(two_list_document());
    state.file_deleted = true;
    state.undo();
    assert_eq!(
        state.status_message.as_deref(),
        Some("File was deleted — cannot save changes"),
    );
}

#[test]
fn undo_and_redo_are_wired_to_u_and_ctrl_r() {
    let mut state = App::new(two_list_document());
    state.handle_key(KeyCode::Char('u')); // nothing yet
    assert_eq!(state.status_message.as_deref(), Some("Nothing to undo"));

    state.toggle_current();
    state.handle_key(KeyCode::Char('u'));
    assert_eq!(
        state.current_list().items[0].kind,
        ItemKind::Checkbox(TaskState::NotStarted),
    );
    state.handle_key_with_mods(KeyCode::Char('r'), KeyModifiers::control());
    assert_eq!(
        state.current_list().items[0].kind,
        ItemKind::Checkbox(TaskState::Done),
    );
}

#[test]
fn ctrl_u_does_not_trigger_undo() {
    let mut state = App::new(two_list_document());
    state.toggle_current();
    state.current_item_index = 0;
    state.handle_key_with_mods(KeyCode::Char('u'), KeyModifiers::control());
    assert_eq!(
        state.current_list().items[0].kind,
        ItemKind::Checkbox(TaskState::Done),
        "Ctrl-U must not undo",
    );
}

#[test]
fn external_reload_clears_undo_history() {
    let path = write_real_file("## List 1\n\n- [ ] `task one`\n");
    let mut state = App::open(&path);
    state.toggle_current(); // build some history
    assert!(!state.undo_stack.is_empty());

    touch_with_new_mtime(&path, "## List 1\n\n- [ ] `task one`\n- [ ] `task two`\n");
    state.reload_if_changed();
    assert!(
        state.undo_stack.is_empty(),
        "external edit clears undo history"
    );
    assert!(state.redo_stack.is_empty());
}

// --- Further cases ---

#[test]
fn record_git_sync_sets_the_synced_timestamp() {
    let mut state = App::new(two_list_document());
    assert!(state.git_sync.last_at.is_none());
    state.record_git_sync();
    assert!(state.git_sync.last_at.is_some());
}

#[test]
fn help_ctrl_scroll_keys_and_page_up_scroll() {
    let mut state = App::new(two_list_document());
    state.handle_key(KeyCode::Char('?'));
    state.help.max_scroll = 5;
    state.help.viewport_height = 6;
    state.handle_key(KeyCode::PageDown);
    assert_eq!(state.help.scroll, 5, "clamps at max_scroll");
    state.handle_key_with_mods(KeyCode::Char('u'), KeyModifiers::control());
    assert_eq!(state.help.scroll, 2, "Ctrl-U jumps half a page (3) up");
    state.handle_key(KeyCode::PageUp);
    assert_eq!(state.help.scroll, 0, "clamps at 0");
    state.handle_key_with_mods(KeyCode::Char('e'), KeyModifiers::control());
    assert_eq!(state.help.scroll, 1, "Ctrl-E scrolls down one line");
    state.handle_key_with_mods(KeyCode::Char('y'), KeyModifiers::control());
    assert_eq!(state.help.scroll, 0, "Ctrl-Y scrolls up one line");
    assert_eq!(
        state.screen,
        Screen::Help,
        "none of these close the overlay"
    );
}

#[test]
fn picker_backspace_edits_the_query() {
    let mut state = App::new(two_list_document());
    state.handle_key(KeyCode::Char('T'));
    type_str(&mut state, "task");
    assert_eq!(state.picker.query, "task");
    state.handle_key(KeyCode::Backspace);
    assert_eq!(state.picker.query, "tas");
}

#[test]
fn picker_move_is_a_no_op_with_no_matches() {
    let mut state = App::new(two_list_document());
    state.handle_key(KeyCode::Char('T'));
    type_str(&mut state, "nonexistent task text");
    assert_eq!(state.picker_matches().len(), 0);
    state.handle_key(KeyCode::Down); // picker_move: must not panic or move
    assert_eq!(state.picker.selection, 0);
}

#[test]
fn picker_enter_with_no_matches_closes_without_jumping() {
    let mut state = App::new(two_list_document());
    let (before_list, before_item) = (state.current_list_index, state.current_item_index);
    state.handle_key(KeyCode::Char('T'));
    type_str(&mut state, "nonexistent task text");
    state.handle_key(KeyCode::Enter);
    assert_eq!(state.screen, Screen::Checklist, "closes on Enter");
    assert_eq!(
        (state.current_list_index, state.current_item_index),
        (before_list, before_item),
        "cursor untouched when nothing matched"
    );
}

#[test]
fn go_to_first_and_last_item_are_no_ops_on_a_list_less_document() {
    let mut state = App::new(two_list_document());
    state.document.lists.clear();
    state.go_to_first_item();
    state.go_to_last_item();
}

#[test]
fn toggle_item_is_blocked_when_file_deleted() {
    let mut state = App::new(two_list_document());
    state.file_deleted = true;
    state.toggle_item(0, 0);
    assert_eq!(
        state.document.lists[0].items[0].kind,
        ItemKind::Checkbox(TaskState::NotStarted),
        "blocked toggle must not change state"
    );
}

#[test]
fn toggle_item_out_of_range_is_ignored() {
    let mut state = App::new(two_list_document());
    state.toggle_item(9, 9); // must not panic
    state.toggle_item(0, 99);
    assert_eq!(
        state.document.lists[0].items[0].kind,
        ItemKind::Checkbox(TaskState::NotStarted),
    );
}

#[test]
fn toggle_item_reports_error_when_write_fails() {
    let document = document_with_missing_file(vec![List {
        title: "L".to_string(),
        banner: None,
        items: vec![checkbox(1, false)],
    }]);
    let mut state = App::new(document);
    state.toggle_item(0, 0);
    assert!(
        state
            .status_message
            .as_deref()
            .is_some_and(|m| m.contains("Write failed")),
        "got {:?}",
        state.status_message
    );
    assert_eq!(
        state.document.lists[0].items[0].kind,
        ItemKind::Checkbox(TaskState::NotStarted),
        "in-memory state rolled back since the toggle was never saved"
    );
}

#[test]
fn toggle_item_click_on_list_complete_screen_stays_when_list_still_done() {
    let document = document_with_lists(vec![
        List {
            title: "Done list".to_string(),
            banner: None,
            items: vec![checkbox(1, true)],
        },
        List {
            title: "Other list".to_string(),
            banner: None,
            items: vec![checkbox(2, false)],
        },
    ]);
    let mut state = App::new(document);
    state.current_list_index = 0;
    state.screen = Screen::ListComplete;
    state.toggle_item(1, 0); // toggles the *other* list's task
    assert_eq!(
        state.document.lists[1].items[0].kind,
        ItemKind::Checkbox(TaskState::Done)
    );
    assert_eq!(
        state.screen,
        Screen::ListComplete,
        "the current list is still fully done, so ListComplete must not be demoted"
    );
}

#[test]
fn start_current_is_a_no_op_when_no_current_item() {
    let document = document_with_lists(vec![List {
        title: "Empty".to_string(),
        banner: None,
        items: vec![],
    }]);
    let mut state = App::new(document);
    state.start_current(); // current_item() is None: must not panic
    assert_eq!(state.screen, Screen::Checklist);
}

#[test]
fn start_current_reports_instead_of_going_silent_on_a_display_only_card() {
    let document = document_with_lists(vec![List {
        title: "L".to_string(),
        banner: None,
        items: vec![display_only(1), checkbox(2, false)],
    }]);
    let mut state = App::new(document);
    state.current_item_index = 0;
    state.start_current(); // current item is DisplayOnly
    assert_eq!(
        state.document.lists[0].items[1].kind,
        ItemKind::Checkbox(TaskState::NotStarted),
        "the checkbox item must be untouched"
    );
    assert_eq!(
        state.status_message.as_deref(),
        Some("Nothing to start: this card is a note, not a task")
    );
    assert!(state.status_is_error, "sticky, error-colored");
}

#[test]
fn toggle_current_reports_on_a_display_only_card_with_nowhere_to_advance() {
    let document = document_with_lists(vec![List {
        title: "L".to_string(),
        banner: None,
        items: vec![checkbox(1, false), display_only(2)],
    }]);
    let mut state = App::new(document);
    state.current_item_index = 1; // the trailing info card
    state.toggle_current();
    assert_eq!(state.current_item_index, 1, "nowhere to advance to");
    assert_eq!(
        state.status_message.as_deref(),
        Some("Nothing to toggle: this is a note, and it's the last card")
    );
    assert!(state.status_is_error, "sticky, error-colored");
}

#[test]
fn reload_reports_a_parse_error_and_keeps_the_last_good_document() {
    let path = write_real_file("## S\n\n- [ ] `task`\n");
    let mut state = App::open(&path);

    path.write([0xff, 0xfe, 0xfd]);

    state.reload_if_changed();

    assert!(
        state
            .status_message
            .as_deref()
            .is_some_and(|m| m.starts_with("Reload failed:")),
        "got {:?}",
        state.status_message
    );
    assert_eq!(
        state.current_list().items.len(),
        1,
        "last good document kept"
    );
}

#[test]
fn advancing_past_the_last_list_with_an_earlier_incomplete_shows_all_complete() {
    let document = document_with_lists(vec![
        List {
            title: "List 1".to_string(),
            banner: None,
            items: vec![checkbox(1, false)],
        },
        List {
            title: "List 2".to_string(),
            banner: None,
            items: vec![checkbox(2, false)],
        },
    ]);
    let mut state = App::new(document);
    state.current_list_index = 1;
    state.current_item_index = 0;
    state.toggle_current(); // completes list 2 -> ListComplete
    assert_eq!(state.screen, Screen::ListComplete);
    state.handle_key(KeyCode::Char('l'));
    assert_eq!(state.screen, Screen::AllComplete);
}

#[test]
fn undo_redo_skip_display_only_items_in_the_snapshot() {
    let document = document_with_lists(vec![List {
        title: "L".to_string(),
        banner: None,
        items: vec![display_only(1), checkbox(2, false)],
    }]);
    let mut state = App::new(document);
    state.current_item_index = 1;
    state.toggle_current(); // item 1 (the checkbox) -> Done
    state.undo();
    assert_eq!(
        state.document.lists[0].items[1].kind,
        ItemKind::Checkbox(TaskState::NotStarted),
        "undo restores the checkbox"
    );
    assert_eq!(
        state.document.lists[0].items[0].kind,
        ItemKind::DisplayOnly,
        "the note card is never touched by undo"
    );
}

#[test]
fn redo_is_blocked_when_file_deleted() {
    let document = document_with_lists(vec![List {
        title: "L".to_string(),
        banner: None,
        items: vec![checkbox(1, false)],
    }]);
    let mut state = App::new(document);
    state.toggle_current();
    state.undo();
    state.file_deleted = true;
    state.redo();
    assert_eq!(
        state.document.lists[0].items[0].kind,
        ItemKind::Checkbox(TaskState::NotStarted),
        "blocked redo must not change state"
    );
}

#[test]
fn undo_after_start_then_toggle_reports_marked_started() {
    let document = document_with_lists(vec![List {
        title: "L".to_string(),
        banner: None,
        items: vec![checkbox(1, false)],
    }]);
    let mut state = App::new(document);
    state.start_current(); // NotStarted -> Started
    state.toggle_current(); // Started -> Done
    state.undo(); // back to Started
    assert_eq!(
        state.document.lists[0].items[0].kind,
        ItemKind::Checkbox(TaskState::Started)
    );
    assert_eq!(
        state.status_message.as_deref(),
        Some("Undo: marked started")
    );
}

#[test]
fn is_safe_link_accepts_the_allowlisted_schemes_case_insensitively() {
    for url in [
        "http://example.com",
        "https://example.com",
        "mailto:user@example.com",
        "HTTP://example.com",
        "HTTPS://EXAMPLE.COM",
        "MAILTO:user@example.com",
        "HtTpS://example.com",
    ] {
        assert!(is_safe_link(url), "should accept: {url:?}");
    }
}

#[test]
fn is_safe_link_rejects_non_allowlisted_or_malformed_urls() {
    for url in [
        "ftp://example.com",
        "file:///etc/passwd",
        "javascript:alert(1)",
        "-http://example.com",
        "",
        " http://example.com",
        "http:/example.com",
    ] {
        assert!(!is_safe_link(url), "should reject: {url:?}");
    }
}

#[test]
fn is_safe_link_only_checks_the_scheme_prefix_not_the_rest_of_the_url() {
    assert!(is_safe_link("http://example.com\n--some-option"));
    assert!(is_safe_link("http://example.com\rSet-Cookie: x"));
}

// --- Copies ---

#[test]
fn a_copy_is_asked_for_and_its_outcome_reported() {
    let mut document = two_list_document();
    document.lists[0].items[0].code_blocks = vec!["make deploy".to_string()];
    let mut state = App::new(document);
    state.clipboard_primary = true;
    state.handle_key(KeyCode::Char('y'));
    let request = state.take_copy_request().expect("a copy");
    assert_eq!(request.text, "make deploy");
    assert!(request.primary);
    assert_eq!(request.report, CopyReport::Always);
    assert!(state.take_copy_request().is_none(), "consumed");
    let mut told = |outcome| {
        state.finish_copy(CopyReport::Always, outcome);
        (state.status_message.clone().unwrap(), state.status_is_error)
    };
    assert_eq!(told(CopyOutcome::CopiedSystem), ("Copied to clipboard".to_string(), false));
    assert_eq!(told(CopyOutcome::CopiedOsc52), ("Sent to clipboard (OSC 52)".to_string(), false));
    assert_eq!(
        told(CopyOutcome::NoCandidates),
        ("Nothing to copy: item has no code".to_string(), true)
    );
    assert_eq!(
        told(CopyOutcome::Ambiguous(3)),
        ("Not copied: item has 3 code candidates".to_string(), true)
    );
    assert_eq!(
        told(CopyOutcome::TooLarge),
        ("Copy failed: too large for the terminal clipboard (OSC 52)".to_string(), true)
    );
    assert_eq!(
        told(CopyOutcome::Failed),
        ("Copy failed: no clipboard available".to_string(), true)
    );
}

#[test]
fn auto_copy_follows_the_cursor_and_reports_only_success() {
    let mut document = two_list_document();
    document.lists[0].items[1].code_spans = vec!["ls".to_string()];
    let mut state = App::new(document);
    state.handle_key(KeyCode::Char('j'));
    assert!(state.take_copy_request().is_none(), "off unless asked for");
    state.auto_copy = true;
    state.handle_key(KeyCode::Char('k'));
    state.handle_key(KeyCode::Char('j'));
    let request = state.take_copy_request().expect("a copy");
    assert_eq!((request.text.as_str(), request.report), ("ls", CopyReport::OnSuccess));
    state.finish_copy(CopyReport::OnSuccess, CopyOutcome::Failed);
    assert_eq!(state.status_message, None);
    state.finish_copy(CopyReport::OnSuccess, CopyOutcome::CopiedSystem);
    assert_eq!(state.status_message.as_deref(), Some("Copied to clipboard"));
    state.clear_status();
    state.finish_copy(CopyReport::Never, CopyOutcome::CopiedSystem);
    assert_eq!(state.status_message, None);
}

#[test]
fn auto_copy_follows_every_way_to_a_card() {
    fn copied(state: &mut App) -> Option<String> {
        state.take_copy_request().map(|r| r.text)
    }
    let mut document = two_list_document();
    let last = document.lists[1].items.len() - 1;
    document.lists[0].items[0].code_spans = vec!["first".to_string()];
    document.lists[1].items[last].code_spans = vec!["last".to_string()];
    let mut state = App::new(document);
    state.auto_copy = true;
    state.handle_key(KeyCode::Char('G'));
    assert_eq!(copied(&mut state).as_deref(), Some("last"));
    state.handle_key(KeyCode::Char('g'));
    assert_eq!(copied(&mut state), None, "half a command moves nothing");
    state.handle_key(KeyCode::Char('g'));
    assert_eq!(copied(&mut state).as_deref(), Some("first"));
    for list in &mut state.document.lists {
        for item in &mut list.items {
            item.kind = ItemKind::Checkbox(TaskState::Done);
        }
    }
    state.document.lists[1].items[last].kind = ItemKind::Checkbox(TaskState::NotStarted);
    state.handle_key(KeyCode::Tab);
    assert_eq!((state.current_list_index, state.current_item_index), (1, last));
    assert_eq!(copied(&mut state).as_deref(), Some("last"));
    state.go_to_first_item();
    assert_eq!(copied(&mut state).as_deref(), Some("first"));
    state.screen = Screen::AllComplete;
    state.handle_key(KeyCode::Char('h'));
    assert_eq!(copied(&mut state).as_deref(), Some("last"));
    state.focus_item(0, 0);
    assert_eq!(copied(&mut state), None, "left to the callers");
}

// --- Git-sync requests ---

#[test]
fn every_written_change_is_handed_to_git_sync() {
    let path = write_real_file("## L\n\n- [ ] `one`\n");
    let mut state = App::open(&path);
    let before = path.hash();
    state.toggle_current();
    let sync = state.take_git_sync_request().expect("a request");
    assert_eq!(sync.content, "## L\n\n- [x] `one`\n");
    assert_eq!(sync.content, path.text());
    assert_eq!(Some(sync.content_hash), path.hash());
    assert_eq!(sync.previous_content_hash, before);
    assert_eq!(sync.description, "Check \"one\"");
    assert!(state.take_git_sync_request().is_none(), "consumed");
    state.start_current();
    assert_eq!(state.take_git_sync_request().unwrap().description, "Start \"one\"");
    state.start_current();
    assert_eq!(state.take_git_sync_request().unwrap().description, "Uncheck \"one\"");
    state.undo();
    assert_eq!(state.take_git_sync_request().unwrap().description, "Undo: 1 item");
    state.redo();
    assert_eq!(state.take_git_sync_request().unwrap().description, "Redo: 1 item");
    state.reset_all();
    assert_eq!(
        state.take_git_sync_request().unwrap().description,
        "Reset all tasks to not done"
    );
}

#[test]
fn a_failed_write_hands_nothing_to_git_sync() {
    let path = write_real_file("## L\n\n- [ ] `one`\n");
    let mut state = App::open(&path);
    path.remove();
    state.toggle_current();
    assert!(state.take_git_sync_request().is_none());
}

// --- Any input, any order ---

/// A sequence of numbers without a pattern.
struct Numbers(u64);

impl Numbers {
    fn next(&mut self, below: u64) -> u64 {
        self.0 = self.0.wrapping_mul(6364136223846793005).wrapping_add(1442695040888963407);
        (self.0 >> 33) % below
    }
}

fn assert_valid(state: &App) {
    let (list, item) = (state.current_list_index, state.current_item_index);
    assert!(list < state.document.lists.len());
    let count = state.document.lists[list].items.len();
    assert!(item < count || (item == 0 && count == 0), "({list}, {item})");
    assert!(state.undo_stack.len() + state.redo_stack.len() <= UNDO_HISTORY_CAP);
    assert!(state.pending_write.is_none());
    assert!(matches!(
        state.screen_before_confirm,
        Screen::Checklist | Screen::ListComplete | Screen::AllComplete
    ));
}

fn varied_document() -> Document {
    let mut noted = text_item(4, "Note the Time");
    noted.kind = ItemKind::DisplayOnly;
    noted.section = vec![SubHeading { level: 3, text: "Before".to_string() }];
    let mut linked = item_with_links(6, &["https://example.com/a", "ftp://example.com/b"]);
    linked.code_blocks = vec!["make".to_string()];
    document_with_lists(vec![
        List { title: "A".to_string(), banner: None, items: vec![checkbox(1, false), noted] },
        List { title: "Empty".to_string(), banner: None, items: vec![] },
        List {
            title: "A".to_string(),
            banner: None,
            items: vec![linked, checkbox(7, true), checkbox(8, false)],
        },
    ])
}

#[test]
fn whatever_is_pressed_the_state_stays_valid() {
    let keys: Vec<char> = "hjklgG}{/nNyo se?TqRuLH123456789a ".chars().collect();
    for seed in 0..40 {
        let mut numbers = Numbers(seed);
        let mut state = App::new(varied_document());
        state.overview_rows = vec![
            (Rect::new(0, 0, 5, 1), OverviewTarget::List(2)),
            (Rect::new(0, 1, 5, 1), OverviewTarget::Item(2, 9)),
            (Rect::new(0, 2, 5, 1), OverviewTarget::Toggle(2, 1)),
        ];
        for _ in 0..300 {
            match numbers.next(12) {
                0 => state.handle_key(KeyCode::Enter),
                1 => state.handle_key(KeyCode::Esc),
                2 => state.handle_key(KeyCode::Backspace),
                3 => state.handle_key(KeyCode::Tab),
                4 => state.handle_key_with_mods(KeyCode::Char('r'), KeyModifiers::control()),
                5 => {
                    let (col, row) = (numbers.next(6) as u16, numbers.next(4) as u16);
                    state.handle_left_click(col, row);
                }
                6 => state.handle_scroll_down(),
                _ => {
                    let c = keys[numbers.next(keys.len() as u64) as usize];
                    state.handle_key(KeyCode::Char(c));
                }
            }
            assert_valid(&state);
            if let Some(url) = state.take_link_open_request() {
                assert!(is_safe_link(&url));
            }
        }
    }
}

#[test]
fn whatever_is_called_the_cursor_stays_on_a_card() {
    let keys: Vec<char> = "hjklgG}{/nN s?TqRuLH123ab ".chars().collect();
    for seed in 0..40 {
        let mut numbers = Numbers(seed);
        let mut state = App::new(varied_document());
        state.auto_copy = seed % 2 == 0;
        for _ in 0..300 {
            let (list, item) = (numbers.next(5) as usize, numbers.next(5) as usize);
            match numbers.next(24) {
                0 => state.navigate_next(),
                1 => state.navigate_prev(),
                2 => state.navigate_forward(),
                3 => state.navigate_backward(),
                4 => state.jump_to_list(list),
                5 => state.jump_to_next_incomplete_list(),
                6 => state.jump_to_prev_incomplete_list(),
                7 => state.jump_to_next_incomplete_task(),
                8 => state.go_to_first_item(),
                9 => state.go_to_last_item(),
                10 => state.focus_item(list, item),
                11 => state.toggle_current(),
                12 => state.toggle_item(list, item),
                13 => state.start_current(),
                14 => state.request_reset(),
                15 => state.reset_all(),
                16 => state.undo(),
                17 => state.redo(),
                18 => {
                    let shorter = DiskState {
                        mtime: 1,
                        size: 1,
                        hash: state.disk.hash(),
                        parsed: Parsed::Read(two_list_document()),
                    };
                    state.reload_from_disk(shorter, false);
                }
                19 => state.handle_key(KeyCode::Esc),
                20 => state.handle_key(KeyCode::Enter),
                21 => state.open_current_link(),
                _ => {
                    let c = keys[numbers.next(keys.len() as u64) as usize];
                    state.handle_key(KeyCode::Char(c));
                }
            }
            let (list, item) = (state.current_list_index, state.current_item_index);
            assert!(list < state.document.lists.len());
            assert!(item == 0 || item < state.document.lists[list].items.len());
            assert_eq!(state.current_list().title, state.document.lists[list].title);
        }
    }
}

#[test]
fn the_filter_keeps_what_a_search_finds() {
    let mut under = text_item(4, "Rotate the logs");
    under.section = vec![SubHeading { level: 3, text: "Disk Space".to_string() }];
    let mut state = App::new(document_with_lists(vec![
        List {
            title: "L1".to_string(),
            banner: None,
            items: vec![text_item(1, "Check disk space"), text_item(2, "Restart")],
        },
        List { title: "L2".to_string(), banner: None, items: vec![under] },
    ]));
    state.picker.query = String::new();
    assert_eq!(state.picker_matches(), vec![(0, 0), (0, 1), (1, 0)]);
    for query in ["disk", "Disk", "Check", "re", "Rotate", "space", "zz"] {
        state.picker.query = query.to_string();
        let kept = state.picker_matches();
        for place in state.find_matches(query) {
            assert!(kept.contains(&place), "{query}: {place:?}");
        }
        assert!(kept.windows(2).all(|w| w[0] < w[1]), "in order");
        for place in &kept {
            let card = &state.document.lists[place.0].items[place.1];
            assert!(
                state.find_matches(query).contains(place) || !card.section.is_empty(),
                "{query}: {place:?}"
            );
        }
    }
    state.picker.query = "Disk".to_string();
    assert_eq!(state.picker_matches(), vec![(1, 0)], "found by its heading");
    assert!(state.find_matches("Disk").is_empty());
}

#[test]
fn the_filter_keeps_what_a_search_finds_whatever_the_heading() {
    // A capital sigma has a lower-case form of its own at the end of a word.
    for (text, query) in [("ΟΔΟΣ", "οδος"), ("ΟΔΟΣ'", "οδος"), ("ΙΣΤΟΣ", "ιστος"), ("İ", "i̇")] {
        for heading in ["ΣΑΣ", "Στ", "a", ".", ""] {
            let mut under = text_item(4, text);
            under.section = vec![
                SubHeading { level: 3, text: heading.to_string() },
                SubHeading { level: 4, text: "Σ".to_string() },
            ];
            let mut state = App::new(document_with_lists(vec![List {
                title: "L1".to_string(),
                banner: None,
                items: vec![under],
            }]));
            state.picker.query = query.to_string();
            assert_eq!(state.find_matches(query), vec![(0, 0)], "{text}");
            assert_eq!(state.picker_matches(), vec![(0, 0)], "{text} under {heading}");
        }
    }
}

#[test]
fn dialogs_return_to_the_screen_they_were_opened_on() {
    let mut state = App::new(two_list_document());
    state.toggle_current();
    for screen in [Screen::Checklist, Screen::ListComplete, Screen::AllComplete] {
        for key in ['?', 'T', 'R'] {
            state.screen = screen;
            let cursor = (state.current_list_index, state.current_item_index);
            state.handle_key(KeyCode::Char(key));
            assert_ne!(state.screen, screen);
            state.handle_key(KeyCode::Esc);
            assert_eq!(state.screen, screen);
            assert_eq!((state.current_list_index, state.current_item_index), cursor);
        }
    }
}

fn kinds(state: &App) -> Vec<ItemKind> {
    state.document.lists.iter().flat_map(|l| l.items.iter()).map(|i| i.kind).collect()
}

#[test]
fn without_a_file_no_input_changes_a_task() {
    let mut numbers = Numbers(7);
    let mut state = App::new(varied_document());
    state.file_deleted = true;
    let before = kinds(&state);
    let keys: Vec<char> = "hjkl sRuyTn".chars().collect();
    for _ in 0..500 {
        let c = keys[numbers.next(keys.len() as u64) as usize];
        state.handle_key(KeyCode::Char(c));
        assert_eq!(kinds(&state), before);
    }
}

#[test]
fn a_run_of_changes_can_be_undone_and_redone_whole() {
    let path = write_real_file("## L\n\n- [ ] `one`\n- [X] `two`\n- [/] `three`\n");
    let original = path.text();
    let mut document = read_checklist(&original);
    document.lists[0].items[2].kind = ItemKind::Checkbox(TaskState::Started);
    let mut state = App::with_disk(document, path.clone());
    state.document.lists[0].items[1].kind = ItemKind::Checkbox(TaskState::Done);
    let start = kinds(&state);
    let mut numbers = Numbers(3);
    let mut history = vec![(start, original)];
    for _ in 0..20 {
        let item = numbers.next(3) as usize;
        if numbers.next(2) == 0 {
            state.toggle_item(0, item);
        } else {
            state.focus_item(0, item);
            state.start_current();
        }
        history.push((kinds(&state), path.text()));
    }
    for expected in history.iter().rev().skip(1) {
        state.undo();
        assert_eq!(kinds(&state), expected.0);
    }
    for expected in history.iter().skip(1) {
        state.redo();
        assert_eq!(kinds(&state), expected.0);
        assert_eq!(path.text(), expected.1);
    }
}

#[test]
fn an_external_change_of_states_leaves_the_cursor() {
    let path = write_real_file("## A\n\n- [ ] `a`\n\n## A\n\n- [ ] `b`\n- [ ] `c`\n");
    let mut state = App::open(&path);
    state.focus_item(1, 1);
    touch_with_new_mtime(&path, "## A\n\n- [x] `a`\n\n## A\n\n- [x] `b`\n- [ ] `c`\n");
    assert!(state.reload_if_changed());
    assert_eq!((state.current_list_index, state.current_item_index), (1, 1));
}

#[test]
fn a_conflict_during_undo_keeps_the_history_unless_the_file_was_taken_over() {
    let path = write_real_file("## L\n\n- [ ] `one`\n");
    let mut state = App::open(&path);
    state.toggle_current();
    path.write("no tasks here\n");
    state.undo();
    assert!(state.status_is_error);
    assert_eq!(state.undo_stack.len(), 1, "can be tried again");
    assert_eq!(path.text(), "no tasks here\n");
    path.write("## L\n\n- [ ] `one`\n- [ ] `two`\n");
    state.undo();
    assert_eq!(state.undo_stack.len(), 0, "gone with the reload");
    assert_eq!(state.current_list().items.len(), 2);
}

#[test]
fn a_passing_message_is_dated_by_the_clock() {
    let mut state = App::new(two_list_document());
    state.set_now(10_000);
    state.set_status("Saved".to_string());
    assert_eq!(state.status_expiry, Some(14_000));
    state.expire_status(13_999);
    assert!(state.status_message.is_some());
    state.expire_status(14_000);
    assert!(state.status_message.is_none());
    state.record_git_sync();
    assert_eq!(state.git_sync.last_at, Some(10_000));
    state.toggle_current();
    assert_eq!(state.last_update_at, Some(10_000));
}

#[test]
fn a_file_that_cannot_be_looked_up_changes_nothing() {
    let mut state = App::new(two_list_document());
    assert!(state.state.reload_if_changed(FileStat::Unreadable).is_none());
    assert!(!state.file_deleted);
    assert_eq!(state.status_message, None);
}
