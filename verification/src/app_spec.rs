//! What every action of the application does to its state.

use vstd::prelude::*;

use crate::app_state::{
    AfterWriteModel, AppModel, CopyModel, CopyReport, OverviewTarget, Screen, SyncModel,
    WriteModel, STATUS_TIMEOUT_MS, UNDO_HISTORY_CAP,
};
use crate::clipboard::CopyOutcome;
use crate::input::{KeyCode, KeyModifiers, Rect};
use crate::model::{DocumentModel, Item, ItemKind, ListModel, TaskState};
use crate::text::ContentHash;
use crate::{clipboard, document, model, text};

verus! {

// ----- Helpers ---------------------------------------------------------

/// The sum, or the greatest number there is if it is too great.
pub open spec fn capped_sum(a: int, b: int, cap: int) -> int {
    if a + b > cap {
        cap
    } else {
        a + b
    }
}

/// The difference, or zero if it would be negative.
pub open spec fn capped_diff(a: int, b: int) -> int {
    if a < b {
        0
    } else {
        a - b
    }
}

/// The last index of a sequence of length `len`, or zero if it is empty.
pub open spec fn last_index(len: nat) -> usize {
    capped_diff(len as int, 1) as usize
}

/// The plural ending for `n` things.
pub open spec fn plural(n: int) -> Seq<char> {
    if n == 1 {
        ""@
    } else {
        "s"@
    }
}

/// A screen that shows the checklist or a summary of it, with no dialog or
/// overlay on top.
pub open spec fn content_screen(screen: Screen) -> bool {
    screen == Screen::Checklist || screen == Screen::ListComplete || screen == Screen::AllComplete
}

/// A screen that shows a dialog or an overlay, which returns to the screen
/// below it.
pub open spec fn dialog_screen(screen: Screen) -> bool {
    ||| screen == Screen::ConfirmReset
    ||| screen == Screen::ConfirmQuitReset
    ||| screen == Screen::Help
    ||| screen == Screen::ListPicker
}

/// The state that toggling *done* leads to.
pub open spec fn toggled_done(state: TaskState) -> TaskState {
    if state == TaskState::Done {
        TaskState::NotStarted
    } else {
        TaskState::Done
    }
}

/// The state that toggling *started* leads to.
pub open spec fn toggled_started(state: TaskState) -> TaskState {
    if state == TaskState::Started {
        TaskState::NotStarted
    } else {
        TaskState::Started
    }
}

/// The verb for bringing a task into a state.
pub open spec fn state_verb(state: TaskState) -> Seq<char> {
    match state {
        TaskState::Done => "Check"@,
        TaskState::Started => "Start"@,
        TaskState::NotStarted => "Uncheck"@,
    }
}

/// The predicate "comes after `place`".
pub open spec fn after_place(place: (usize, usize)) -> spec_fn((usize, usize)) -> bool {
    |p: (usize, usize)| model::place_before(place, p)
}

/// The predicate "comes before `place`".
pub open spec fn before_place(place: (usize, usize)) -> spec_fn((usize, usize)) -> bool {
    |p: (usize, usize)| model::place_before(p, place)
}

/// The predicate "is `place`".
pub open spec fn equal_place(place: (usize, usize)) -> spec_fn((usize, usize)) -> bool {
    |p: (usize, usize)| p == place
}

/// The predicate "is greater than `i`".
pub open spec fn above(i: usize) -> spec_fn(usize) -> bool {
    |j: usize| j > i
}

/// The predicate "is less than `i`".
pub open spec fn below(i: usize) -> spec_fn(usize) -> bool {
    |j: usize| j < i
}

/// The predicate "is a row that covers the cell".
pub open spec fn row_covers(col: u16, row: u16) -> spec_fn((Rect, OverviewTarget)) -> bool {
    |r: (Rect, OverviewTarget)| r.0.covers(col, row)
}

/// The predicate "is a region that covers the cell".
pub open spec fn region_covers(col: u16, row: u16) -> spec_fn((Rect, String)) -> bool {
    |r: (Rect, String)| r.0.covers(col, row)
}

/// Where a search forward from `cur` leads: the first match after it, or else
/// the first of all.
pub open spec fn match_after(matches: Seq<(usize, usize)>, cur: (usize, usize)) -> int {
    match text::first_from(matches, after_place(cur), 0) {
        Some(i) => i,
        None => 0,
    }
}

/// Where a search backward from `cur` leads: the last match before it, or
/// else the last of all.
pub open spec fn match_before(matches: Seq<(usize, usize)>, cur: (usize, usize)) -> int {
    match text::last_before(matches, before_place(cur), matches.len() as int) {
        Some(i) => i,
        None => matches.len() - 1,
    }
}

/// How many of the lists before number `index` have the title of that one.
pub open spec fn title_rank(lists: Seq<ListModel>, index: int, title: Seq<char>) -> nat
    decreases index,
{
    if index <= 0 {
        0
    } else {
        title_rank(lists, index - 1, title) + (if lists[index - 1].title@ == title {
            1nat
        } else {
            0nat
        })
    }
}

/// List number `i` is titled `title`, and `rank` lists of that title come
/// before it.
pub open spec fn is_ranked_list(
    lists: Seq<ListModel>,
    title: Seq<char>,
    rank: nat,
    i: int,
) -> bool {
    &&& 0 <= i < lists.len()
    &&& lists[i].title@ == title
    &&& title_rank(lists, i, title) == rank
}

/// The list titled `title` before which `rank` lists of that title come; the
/// first list if there is none.
pub open spec fn ranked_list(lists: Seq<ListModel>, title: Seq<char>, rank: nat) -> int {
    if exists|i: int| is_ranked_list(lists, title, rank, i) {
        choose|i: int| is_ranked_list(lists, title, rank, i)
    } else {
        0
    }
}

/// What an outside change of the file amounts to.
pub enum ParsedModel {
    /// The file was read and understood.
    Read(DocumentModel),
    /// It was not, for the given reason.
    Failed(Seq<char>),
}

/// The file as it was found on disk.
pub struct DiskModel {
    pub mtime: u128,
    pub size: u64,
    pub hash: Option<ContentHash>,
    pub parsed: ParsedModel,
}

impl AppModel {
    // ----- Validity ----------------------------------------------------

    /// The cursor is on a list that exists.
    pub open spec fn has_list(self) -> bool {
        self.current_list_index < self.document.lists.len()
    }

    /// No change waits to be written.
    pub open spec fn settled(self) -> bool {
        self.pending_write is None
    }

    /// The application can take input: the cursor is on a list, and no change
    /// waits to be written.
    pub open spec fn ready(self) -> bool {
        self.has_list() && self.settled()
    }

    /// The place is a card of the document, or the empty beginning of a list
    /// without cards.
    pub open spec fn valid_place(self, list: usize, item: usize) -> bool {
        &&& list < self.document.lists.len()
        &&& item < self.document.lists[list as int].items.len() || (item == 0
            && self.document.lists[list as int].items.len() == 0)
    }

    /// A search runs, or a dialog or overlay was opened on top of one.
    pub open spec fn search_open(self) -> bool {
        ||| self.screen == Screen::Search
        ||| dialog_screen(self.screen) && self.screen_before_confirm == Screen::Search
    }

    /// The invariant of the application: the cursor is on a card, or at the
    /// beginning of a list without cards; so is the place that a running
    /// search returns to; and the history keeps its bound.
    pub open spec fn wf(self) -> bool {
        &&& self.valid_place(self.current_list_index, self.current_item_index)
        &&& self.search_open() ==> self.valid_place(self.search_origin.0, self.search_origin.1)
        &&& self.history_size() <= UNDO_HISTORY_CAP
    }

    /// The number of steps that can be undone or redone, counting one that is
    /// being written.
    pub open spec fn history_size(self) -> nat {
        self.undo_stack.len() + self.redo_stack.len() + (match self.pending_write {
            Some(write) => if write.then_do is History {
                1nat
            } else {
                0nat
            },
            None => 0nat,
        })
    }

    /// Where the application starts: on the first task that is not done, of
    /// the first list that has one; with none, at the beginning.
    pub open spec fn start_place(lists: Seq<ListModel>) -> (usize, usize) {
        match text::first_from(lists, model::list_has_open(), 0) {
            Some(list) => (list as usize, (model::first_open(lists[list].items)->0) as usize),
            None => (0, 0),
        }
    }

    /// The state in which the application starts.
    pub open spec fn initial(
        document: DocumentModel,
        mtime: Option<u128>,
        size: Option<u64>,
        hash: Option<ContentHash>,
    ) -> AppModel {
        AppModel {
            document,
            current_list_index: Self::start_place(document.lists).0,
            current_item_index: Self::start_place(document.lists).1,
            screen: Screen::Checklist,
            status_message: None,
            status_expiry: None,
            status_is_error: false,
            should_quit: false,
            file_mtime: mtime,
            file_size: size,
            file_content_hash: hash,
            last_update_at: None,
            sync_pending: None,
            sync_last_at: None,
            card_scroll: 0,
            card_max_scroll: 0,
            card_viewport_height: 0,
            card_rect: None,
            code_regions: Seq::empty(),
            overview_rows: Seq::empty(),
            pending_g: false,
            pending_open_link: false,
            editor_requested: false,
            screen_before_confirm: Screen::Checklist,
            clipboard_primary: false,
            auto_copy: false,
            file_deleted: false,
            search_query: Seq::empty(),
            search_origin: (0, 0),
            search_last: None,
            picker_query: Seq::empty(),
            picker_selection: 0,
            picker_viewport_height: 0,
            link_open_request: None,
            help_scroll: 0,
            help_max_scroll: 0,
            help_viewport_height: 0,
            undo_stack: Seq::empty(),
            redo_stack: Seq::empty(),
            copy_request: None,
            pending_write: None,
            now: 0,
        }
    }

    // ----- The cursor --------------------------------------------------

    /// The cards of the current list.
    pub open spec fn current_items(self) -> Seq<Item> {
        self.document.lists[self.current_list_index as int].items
    }

    /// The card under the cursor.
    pub open spec fn current_item(self) -> Option<Item> {
        model::item_at(self.document.lists, self.current_list_index, self.current_item_index)
    }

    /// The cursor.
    pub open spec fn cursor(self) -> (usize, usize) {
        (self.current_list_index, self.current_item_index)
    }

    /// The card scrolled to its top.
    pub open spec fn unscrolled(self) -> AppModel {
        AppModel { card_scroll: 0, card_max_scroll: 0, ..self }
    }

    /// The cursor moved, the card scrolled to its top.
    pub open spec fn moved(self, list: usize, item: usize) -> AppModel {
        AppModel { current_list_index: list, current_item_index: item, ..self }.unscrolled()
    }

    /// The cursor moved, the card shown.
    pub open spec fn shown(self, list: usize, item: usize) -> AppModel {
        AppModel { screen: Screen::Checklist, ..self.moved(list, item) }
    }

    /// The screen changed.
    pub open spec fn on_screen(self, screen: Screen) -> AppModel {
        AppModel { screen, ..self }
    }

    // ----- Messages ----------------------------------------------------

    /// A passing message.
    pub open spec fn with_status(self, msg: Seq<char>) -> AppModel {
        AppModel {
            status_message: Some(msg),
            status_expiry: Some(
                capped_sum(self.now as int, STATUS_TIMEOUT_MS as int, u64::MAX as int) as u64,
            ),
            status_is_error: false,
            ..self
        }
    }

    /// A message that stays until the next input.
    pub open spec fn with_error(self, msg: Seq<char>) -> AppModel {
        AppModel { status_message: Some(msg), status_expiry: None, status_is_error: true, ..self }
    }

    /// No message.
    pub open spec fn without_status(self) -> AppModel {
        AppModel { status_message: None, status_expiry: None, status_is_error: false, ..self }
    }

    /// No message, and no half-typed command.
    pub open spec fn without_chords(self) -> AppModel {
        AppModel { pending_g: false, pending_open_link: false, ..self.without_status() }
    }

    /// The message for a change that is refused because the file is gone.
    pub open spec fn refused_as_deleted(self) -> AppModel {
        self.with_error("File was deleted — cannot save changes"@)
    }

    // ----- Copying -----------------------------------------------------

    /// A copy of `text` asked for.
    pub open spec fn copying(self, copied: Seq<char>, report: CopyReport) -> AppModel {
        AppModel {
            copy_request: Some(
                CopyModel { text: copied, primary: self.clipboard_primary, report },
            ),
            ..self
        }
    }

    /// With automatic copying, the card's one piece of code asked for.
    pub open spec fn auto_copied(self, report: CopyReport) -> AppModel {
        match self.current_item() {
            Some(item) => match clipboard::sole_code(item) {
                Some(code) => if self.auto_copy {
                    self.copying(code, report)
                } else {
                    self
                },
                None => self,
            },
            None => self,
        }
    }

    /// The card's code asked for, or the reason why not.
    pub open spec fn code_copied(self) -> AppModel {
        match self.current_item() {
            None => self,
            Some(item) => {
                let found = clipboard::code_candidates(item);
                if found.len() == 0 {
                    self.with_error("Nothing to copy: item has no code"@)
                } else if found.len() == 1 {
                    self.copying(found[0]@, CopyReport::Always)
                } else {
                    self.with_error(
                        "Not copied: item has "@ + text::decimal(found.len()) + " code candidates"@,
                    )
                }
            },
        }
    }

    /// The outcome of a copy reported.
    pub open spec fn copy_reported(self, report: CopyReport, outcome: CopyOutcome) -> AppModel {
        match (report, outcome) {
            (CopyReport::Never, _) => self,
            (_, CopyOutcome::CopiedSystem) => self.with_status("Copied to clipboard"@),
            (_, CopyOutcome::CopiedOsc52) => self.with_status("Sent to clipboard (OSC 52)"@),
            (CopyReport::OnSuccess, _) => self,
            (_, CopyOutcome::NoCandidates) => self.with_error(
                "Nothing to copy: item has no code"@,
            ),
            (_, CopyOutcome::Ambiguous(n)) => self.with_error(
                "Not copied: item has "@ + text::decimal(n as nat) + " code candidates"@,
            ),
            (_, CopyOutcome::TooLarge) => self.with_error(
                "Copy failed: too large for the terminal clipboard (OSC 52)"@,
            ),
            (_, CopyOutcome::Failed) => self.with_error("Copy failed: no clipboard available"@),
        }
    }

    // ----- Moving about ------------------------------------------------

    /// One card on, within the list.
    pub open spec fn next(self) -> AppModel {
        let item = if self.current_item_index < last_index(self.current_items().len()) {
            (self.current_item_index + 1) as usize
        } else {
            self.current_item_index
        };
        self.moved(self.current_list_index, item).auto_copied(CopyReport::OnSuccess)
    }

    /// One card back, within the list.
    pub open spec fn prev(self) -> AppModel {
        self.moved(
            self.current_list_index,
            capped_diff(self.current_item_index as int, 1) as usize,
        ).auto_copied(CopyReport::OnSuccess)
    }

    /// To a list: to its first task that is not done, or else to its first
    /// card.
    pub open spec fn at_list(self, index: usize) -> AppModel {
        if index < self.document.lists.len() {
            let item = match model::first_open(self.document.lists[index as int].items) {
                Some(i) => i as usize,
                None => 0,
            };
            self.shown(index, item).auto_copied(CopyReport::OnSuccess)
        } else {
            let n = self.document.lists.len();
            self.with_error(
                "No list "@ + text::decimal((index + 1) as nat) + ": this document has "@
                    + text::decimal(n) + " list"@ + plural(n as int),
            )
        }
    }

    /// To one card, or to the last of its list if the list is shorter; no
    /// move to a list without cards.
    pub open spec fn focused(self, list: usize, item: usize) -> AppModel {
        if list < self.document.lists.len() && self.document.lists[list as int].items.len() > 0 {
            let last = last_index(self.document.lists[list as int].items.len());
            self.shown(
                list,
                if item < last {
                    item
                } else {
                    last
                },
            )
        } else {
            self
        }
    }

    /// The next list, after the current one, that has a task not done.
    pub open spec fn next_incomplete(self) -> Option<int> {
        text::first_from(
            self.document.lists,
            model::list_has_open(),
            self.current_list_index + 1,
        )
    }

    /// The nearest list, before the current one, that has a task not done.
    pub open spec fn prev_incomplete(self) -> Option<int> {
        text::last_before(
            self.document.lists,
            model::list_has_open(),
            self.current_list_index as int,
        )
    }

    /// Why there is no further list with a task not done.
    pub open spec fn no_further_list(self, forward: bool) -> Seq<char> {
        if text::first_from(self.document.lists, model::list_has_open(), 0) is Some {
            "Already at the "@ + (if forward {
                "last"@
            } else {
                "first"@
            }) + " incomplete list"@
        } else {
            "No lists have unfinished tasks"@
        }
    }

    /// To the next list that has a task not done.
    pub open spec fn at_next_incomplete_list(self) -> AppModel {
        match self.next_incomplete() {
            Some(i) => self.at_list(i as usize),
            None => self.with_error(self.no_further_list(true)),
        }
    }

    /// To the previous list that has a task not done.
    pub open spec fn at_prev_incomplete_list(self) -> AppModel {
        match self.prev_incomplete() {
            Some(i) => self.at_list(i as usize),
            None => self.with_error(self.no_further_list(false)),
        }
    }

    /// The place `step` cards on from the cursor, going round at the end of
    /// the document.
    pub open spec fn place_ahead(self, step: int) -> (usize, usize) {
        let order = model::places(self.document.lists, model::any_item());
        let start = match text::first_from(order, equal_place(self.cursor()), 0) {
            Some(i) => i,
            None => 0,
        };
        order[(start + step) % (order.len() as int)]
    }

    /// `step` is the least number of cards to go on to a task not done.
    pub open spec fn first_open_ahead(self, step: int) -> bool {
        let order = model::places(self.document.lists, model::any_item());
        &&& 1 <= step <= order.len()
        &&& self.open_at(self.place_ahead(step))
        &&& forall|s: int| 1 <= s < step ==> !self.open_at(#[trigger] self.place_ahead(s))
    }

    /// The card at the place is a task that is not done.
    pub open spec fn open_at(self, place: (usize, usize)) -> bool {
        model::open_task(self.document.lists[place.0 as int].items[place.1 as int].kind)
    }

    /// To the next task that is not done, going round at the end.
    pub open spec fn at_next_incomplete_task(self) -> AppModel {
        if exists|step: int| self.first_open_ahead(step) {
            let place = self.place_ahead(choose|step: int| self.first_open_ahead(step));
            self.shown(place.0, place.1).auto_copied(CopyReport::OnSuccess)
        } else {
            self.with_error("No unfinished tasks"@)
        }
    }

    /// To the first card of the document.
    pub open spec fn at_first(self) -> AppModel {
        if self.document.lists.len() == 0 {
            self
        } else {
            self.shown(0, 0).auto_copied(CopyReport::OnSuccess)
        }
    }

    /// To the last card of the document.
    pub open spec fn at_last(self) -> AppModel {
        if self.document.lists.len() == 0 {
            self
        } else {
            self.shown(
                (self.document.lists.len() - 1) as usize,
                last_index(self.document.lists.last().items.len()),
            ).auto_copied(CopyReport::OnSuccess)
        }
    }

    /// A further card follows the cursor, in its list or in a later one.
    pub open spec fn can_go_forward(self) -> bool {
        self.current_item_index < last_index(self.current_items().len()) || self.current_list_index
            + 1 < self.document.lists.len()
    }

    /// One card on, into the next list at the end of one.
    pub open spec fn forward(self) -> AppModel {
        if self.current_item_index < last_index(self.current_items().len()) {
            self.next()
        } else if self.current_list_index + 1 < self.document.lists.len() {
            self.at_list((self.current_list_index + 1) as usize)
        } else {
            self
        }
    }

    /// One card back, into the previous list at the beginning of one.
    pub open spec fn backward(self) -> AppModel {
        if self.current_item_index > 0 {
            self.prev()
        } else if self.current_list_index > 0 {
            self.at_list((self.current_list_index - 1) as usize)
        } else {
            self
        }
    }

    /// To the next or previous sub-section of the list.
    pub open spec fn at_sub_section(self, forward: bool) -> AppModel {
        let starts = model::section_starts(self.current_items());
        let found = if forward {
            text::first_from(starts, above(self.current_item_index), 0)
        } else {
            text::last_before(starts, below(self.current_item_index), starts.len() as int)
        };
        if starts.len() == 0 {
            self.with_error("No sub-sections in this list"@)
        } else {
            match found {
                Some(k) => {
                    let item = starts[k];
                    self.focused(self.current_list_index, item).with_status(
                        "Sub-section: "@ + self.current_items()[item as int].section@.last().text@,
                    ).auto_copied(CopyReport::OnSuccess)
                },
                None => self.with_error(
                    "Already at the "@ + (if forward {
                        "last"@
                    } else {
                        "first"@
                    }) + " sub-section"@,
                ),
            }
        }
    }

    // ----- Search ------------------------------------------------------

    /// The places that a search finds.
    pub open spec fn matches(self, query: Seq<char>) -> Seq<(usize, usize)> {
        model::places(self.document.lists, model::found_by_search(query))
    }

    /// A search begun.
    pub open spec fn searching(self) -> AppModel {
        AppModel {
            search_origin: self.cursor(),
            search_query: Seq::empty(),
            screen: Screen::Search,
            ..self
        }
    }

    /// The cursor on the first match of the query, if there is one.
    pub open spec fn search_followed(self) -> AppModel {
        let found = self.matches(self.search_query);
        if found.len() > 0 {
            self.moved(found[0].0, found[0].1)
        } else {
            self
        }
    }

    /// The query changed, and the cursor with it.
    pub open spec fn with_query(self, query: Seq<char>) -> AppModel {
        AppModel { search_query: query, ..self }.search_followed()
    }

    /// The search committed.
    pub open spec fn search_committed(self) -> AppModel {
        let query = self.search_query;
        let n = self.matches(query).len();
        let closed = AppModel {
            search_last: if query.len() > 0 {
                Some(query)
            } else {
                None
            },
            screen: Screen::Checklist,
            ..self
        };
        let reported = if query.len() == 0 {
            closed
        } else if n == 0 {
            closed.with_error("No matches for \""@ + query + "\""@)
        } else if n == 1 {
            closed.with_status("Match 1/1"@)
        } else {
            closed.with_status("Match 1/"@ + text::decimal(n) + " · n/N to cycle"@)
        };
        reported.auto_copied(CopyReport::OnSuccess)
    }

    /// The search given up.
    pub open spec fn search_cancelled(self) -> AppModel {
        self.shown(self.search_origin.0, self.search_origin.1)
    }

    /// To the next or previous match of the last search, going round.
    pub open spec fn search_cycled(self, forward: bool) -> AppModel {
        match self.search_last {
            None => self,
            Some(query) => {
                let found = self.matches(query);
                let target = if forward {
                    match_after(found, self.cursor())
                } else {
                    match_before(found, self.cursor())
                };
                if found.len() == 0 {
                    self.with_error("No matches for \""@ + query + "\""@)
                } else {
                    self.focused(found[target].0, found[target].1).with_status(
                        "Match "@ + text::decimal((target + 1) as nat) + "/"@ + text::decimal(
                            found.len(),
                        ),
                    ).auto_copied(CopyReport::OnSuccess)
                }
            },
        }
    }

    // ----- The go-to-task overlay --------------------------------------

    /// The places that the overlay lists: all of them, or those that the
    /// filter keeps.
    pub open spec fn picker_places(self) -> Seq<(usize, usize)> {
        if self.picker_query.len() == 0 {
            model::places(self.document.lists, model::any_item())
        } else {
            model::places(self.document.lists, model::found_by_picker(self.picker_query))
        }
    }

    /// The overlay opened.
    pub open spec fn picking(self) -> AppModel {
        AppModel {
            screen_before_confirm: self.screen,
            picker_query: Seq::empty(),
            picker_selection: 0,
            screen: Screen::ListPicker,
            ..self
        }
    }

    /// Half of the rows that the overlay shows, one at least.
    pub open spec fn picker_half(self) -> int {
        if self.picker_viewport_height < 2 {
            1
        } else {
            self.picker_viewport_height as int / 2
        }
    }

    /// The highlight moved by `delta` rows, up to the ends of the list.
    pub open spec fn picker_moved(self, delta: int) -> AppModel {
        let count = self.picker_places().len() as int;
        let current = if self.picker_selection < count {
            self.picker_selection as int
        } else {
            count - 1
        };
        let row = if current + delta < 0 {
            0
        } else if current + delta < count {
            current + delta
        } else {
            count - 1
        };
        if count == 0 {
            self
        } else {
            AppModel { picker_selection: row as usize, ..self }
        }
    }

    /// To the highlighted card; with none, the overlay just closes.
    pub open spec fn picked(self) -> AppModel {
        let found = self.picker_places();
        if self.picker_selection < found.len() {
            let place = found[self.picker_selection as int];
            self.focused(place.0, place.1).auto_copied(CopyReport::OnSuccess)
        } else {
            self.on_screen(self.screen_before_confirm)
        }
    }

    /// The filter changed, the highlight back on the first row.
    pub open spec fn with_filter(self, query: Seq<char>) -> AppModel {
        AppModel { picker_query: query, picker_selection: 0, ..self }
    }

    // ----- Scrolling ---------------------------------------------------

    /// Half a page of `height` rows, one row at least.
    pub open spec fn half_of(height: u16) -> int {
        if height < 2 {
            1
        } else {
            height as int / 2
        }
    }

    /// A page of `height` rows less one, one row at least.
    pub open spec fn page_of(height: u16) -> int {
        if height < 2 {
            1
        } else {
            height - 1
        }
    }

    /// The card scrolled down, to its bottom at most.
    pub open spec fn card_down(self, n: int) -> AppModel {
        AppModel {
            card_scroll: capped_sum(
                self.card_scroll as int,
                n,
                self.card_max_scroll as int,
            ) as u16,
            ..self
        }
    }

    /// The card scrolled up, to its top at most.
    pub open spec fn card_up(self, n: int) -> AppModel {
        AppModel { card_scroll: capped_diff(self.card_scroll as int, n) as u16, ..self }
    }

    /// The help scrolled down, to its bottom at most.
    pub open spec fn help_down(self, n: int) -> AppModel {
        AppModel {
            help_scroll: capped_sum(
                self.help_scroll as int,
                n,
                self.help_max_scroll as int,
            ) as u16,
            ..self
        }
    }

    /// The help scrolled up, to its top at most.
    pub open spec fn help_up(self, n: int) -> AppModel {
        AppModel { help_scroll: capped_diff(self.help_scroll as int, n) as u16, ..self }
    }

    // ----- Links -------------------------------------------------------

    /// The targets of the links on the card under the cursor.
    pub open spec fn urls(self) -> Seq<String> {
        match self.current_item() {
            Some(item) => model::link_urls(item.body@),
            None => Seq::empty(),
        }
    }

    /// A link opened, or refused for its scheme.
    pub open spec fn link_opened(self, url: Seq<char>) -> AppModel {
        if text::safe_link(url) {
            AppModel { link_open_request: Some(url), ..self.with_status("Opening "@ + url) }
        } else {
            self.with_error("Not opened: unsupported link type ("@ + url + ")"@)
        }
    }

    /// The card's one link opened; with several, a digit awaited.
    pub open spec fn current_link_opened(self) -> AppModel {
        let urls = self.urls();
        if urls.len() == 0 {
            self.with_error("Nothing to open: card has no link"@)
        } else if urls.len() == 1 {
            self.link_opened(urls[0]@)
        } else {
            AppModel { pending_open_link: true, ..self }
        }
    }

    /// Link number `n` of the card opened, counted from one.
    pub open spec fn link_number_opened(self, n: int) -> AppModel {
        let urls = self.urls();
        if n - 1 < urls.len() {
            self.link_opened(urls[n - 1]@)
        } else {
            self.with_error("No link ["@ + text::decimal(n as nat) + "] on this card"@)
        }
    }

    // ----- Changing tasks ----------------------------------------------

    /// The states of all tasks.
    pub open spec fn states(self) -> Seq<(usize, TaskState)> {
        model::task_states(self.document.lists)
    }

    /// The document's lists replaced.
    pub open spec fn with_lists(self, lists: Seq<ListModel>) -> AppModel {
        AppModel { document: DocumentModel { lists, ..self.document }, ..self }
    }

    /// One card's kind set.
    pub open spec fn with_kind(self, list: usize, item: usize, kind: ItemKind) -> AppModel {
        self.with_lists(model::set_kind(self.document.lists, list as int, item as int, kind))
    }

    /// A snapshot applied.
    pub open spec fn with_states(self, snapshot: Seq<(usize, TaskState)>) -> AppModel {
        self.with_lists(model::restored(self.document.lists, snapshot))
    }

    /// A change to be written.
    pub open spec fn writing(
        self,
        pre_state: Seq<(usize, TaskState)>,
        fail_msg: Seq<char>,
        change_desc: Seq<char>,
        then_do: AfterWriteModel,
    ) -> AppModel {
        AppModel {
            pending_write: Some(WriteModel { pre_state, fail_msg, change_desc, then_do }),
            ..self
        }
    }

    /// What a change of the card to `state` is called.
    pub open spec fn change_of(item: Item, state: TaskState) -> Seq<char> {
        state_verb(state) + " \""@ + model::item_name(item) + "\""@
    }

    /// The task at a place brought into a state, to be written.
    pub open spec fn task_set(
        self,
        list: usize,
        item: usize,
        state: TaskState,
        then_do: AfterWriteModel,
    ) -> AppModel {
        let card = self.document.lists[list as int].items[item as int];
        self.with_kind(list, item, ItemKind::Checkbox(state)).writing(
            self.states(),
            "Write failed — change not saved to disk"@,
            Self::change_of(card, state),
            then_do,
        )
    }

    /// The task under the cursor brought into a state, to be written; refused
    /// when the file is gone.
    pub open spec fn current_set(self, state: TaskState, then_do: AfterWriteModel) -> AppModel {
        if self.file_deleted {
            self.refused_as_deleted()
        } else {
            self.task_set(self.current_list_index, self.current_item_index, state, then_do)
        }
    }

    /// The task under the cursor toggled; a note is passed over instead.
    pub open spec fn toggled(self) -> AppModel {
        match self.current_item() {
            None => self,
            Some(item) => match item.kind {
                ItemKind::DisplayOnly => if self.can_go_forward() {
                    self.forward()
                } else {
                    self.with_error("Nothing to toggle: this is a note, and it's the last card"@)
                },
                ItemKind::Checkbox(state) => self.current_set(
                    toggled_done(state),
                    AfterWriteModel::Toggle { done: toggled_done(state) == TaskState::Done },
                ),
            },
        }
    }

    /// The task under the cursor started, or set back.
    pub open spec fn started(self) -> AppModel {
        match self.current_item() {
            None => self,
            Some(item) => match item.kind {
                ItemKind::DisplayOnly => self.with_error(
                    "Nothing to start: this card is a note, not a task"@,
                ),
                ItemKind::Checkbox(state) => self.current_set(
                    toggled_started(state),
                    AfterWriteModel::Start,
                ),
            },
        }
    }

    /// The task at a place toggled, the cursor left where it is; anything but
    /// a task is ignored.
    pub open spec fn item_toggled(self, list: usize, item: usize) -> AppModel {
        if self.file_deleted {
            self.refused_as_deleted()
        } else {
            match model::item_at(self.document.lists, list, item) {
                None => self,
                Some(card) => match card.kind {
                    ItemKind::DisplayOnly => self,
                    ItemKind::Checkbox(state) => self.task_set(
                        list,
                        item,
                        toggled_done(state),
                        AfterWriteModel::Overview { done: toggled_done(state) == TaskState::Done },
                    ),
                },
            }
        }
    }

    /// A reset asked for.
    pub open spec fn reset_requested(self) -> AppModel {
        if model::any_progress(self.document.lists) {
            AppModel {
                screen_before_confirm: self.screen,
                screen: Screen::ConfirmReset,
                ..self
            }
        } else {
            self.with_error("Nothing to reset: no tasks are done"@)
        }
    }

    /// All tasks reset, to be written.
    pub open spec fn all_reset(self) -> AppModel {
        if self.file_deleted {
            self.refused_as_deleted()
        } else {
            self.with_lists(model::cleared(self.document.lists)).writing(
                self.states(),
                "Write failed — reset not saved to disk"@,
                "Reset all tasks to not done"@,
                AfterWriteModel::Reset,
            )
        }
    }

    // ----- Undo and redo -----------------------------------------------

    /// "Undo" or "Redo".
    pub open spec fn history_verb(redo: bool) -> Seq<char> {
        if redo {
            "Redo"@
        } else {
            "Undo"@
        }
    }

    /// A snapshot of the history applied, to be written.
    pub open spec fn history_applied(self, redo: bool, snapshot: Seq<(usize, TaskState)>) -> AppModel {
        let changed = model::changes(self.document.lists, snapshot);
        let verb = Self::history_verb(redo);
        self.with_states(snapshot).writing(
            self.states(),
            verb + " failed — write error, change not saved"@,
            verb + ": "@ + text::decimal(changed.len()) + " item"@ + plural(changed.len() as int),
            AfterWriteModel::History { redo, snapshot, changed },
        )
    }

    /// The last change undone, to be written.
    pub open spec fn undone(self) -> AppModel {
        if self.file_deleted {
            self.refused_as_deleted()
        } else if self.undo_stack.len() == 0 {
            self.with_error("Nothing to undo"@)
        } else {
            AppModel { undo_stack: self.undo_stack.drop_last(), ..self }.history_applied(
                false,
                self.undo_stack.last(),
            )
        }
    }

    /// The last undone change redone, to be written.
    pub open spec fn redone(self) -> AppModel {
        if self.file_deleted {
            self.refused_as_deleted()
        } else if self.redo_stack.len() == 0 {
            self.with_error("Nothing to redo"@)
        } else {
            AppModel { redo_stack: self.redo_stack.drop_last(), ..self }.history_applied(
                true,
                self.redo_stack.last(),
            )
        }
    }

    /// A change entered into the history: the oldest entry goes once there
    /// are too many, and there is nothing to redo any more.
    pub open spec fn recorded(self, pre_state: Seq<(usize, TaskState)>) -> AppModel {
        let longer = self.undo_stack.push(pre_state);
        AppModel {
            undo_stack: if longer.len() > UNDO_HISTORY_CAP {
                longer.subrange(1, longer.len() as int)
            } else {
                longer
            },
            redo_stack: Seq::empty(),
            ..self
        }
    }

    /// Where the first card from a line is.
    pub open spec fn line_place(self, line: usize) -> Option<(usize, usize)> {
        let found = model::places(self.document.lists, document::on_line(line));
        if found.len() > 0 {
            Some(found[0])
        } else {
            None
        }
    }

    /// The cursor on the first card from a line, if there is one.
    pub open spec fn line_focused(self, line: usize) -> AppModel {
        match self.line_place(line) {
            Some(place) => self.focused(place.0, place.1),
            None => self,
        }
    }

    /// What undoing or redoing did to the card under the cursor.
    pub open spec fn restored_as(self) -> Seq<char> {
        match self.current_item() {
            Some(item) => match item.kind {
                ItemKind::Checkbox(TaskState::Done) => "marked done"@,
                ItemKind::Checkbox(TaskState::Started) => "marked started"@,
                ItemKind::Checkbox(TaskState::NotStarted) => "marked not done"@,
                ItemKind::DisplayOnly => "restored"@,
            },
            None => "restored"@,
        }
    }

    /// Undoing or redoing that changed nothing reported.
    pub open spec fn no_change_reported(self, redo: bool) -> AppModel {
        self.on_screen(Screen::Checklist).with_status(Self::history_verb(redo) + ": no change"@)
    }

    /// Undoing or redoing that changed one task shown and reported.
    pub open spec fn one_change_reported(self, redo: bool, line: usize) -> AppModel {
        let there = self.on_screen(Screen::Checklist).line_focused(line);
        there.with_status(Self::history_verb(redo) + ": "@ + there.restored_as())
    }

    /// Undoing or redoing that changed several tasks reported.
    pub open spec fn changes_reported(self, redo: bool, count: nat) -> AppModel {
        self.on_screen(Screen::Checklist).with_status(
            Self::history_verb(redo) + ": restored "@ + text::decimal(count) + " tasks"@,
        )
    }

    /// The effect of undoing or redoing shown and reported.
    pub open spec fn history_reported(self, redo: bool, changed: Seq<usize>) -> AppModel {
        if changed.len() == 0 {
            self.no_change_reported(redo)
        } else if changed.len() == 1 {
            self.one_change_reported(redo, changed[0])
        } else {
            self.changes_reported(redo, changed.len())
        }
    }

    // ----- Writing -----------------------------------------------------

    /// The file on disk is not what the application last saw of it. A file
    /// that cannot be read does not count.
    pub open spec fn diverged(self, disk_hash: Option<ContentHash>) -> bool {
        disk_hash is Some && disk_hash != self.file_content_hash
    }

    /// After a task was completed: the summary of a finished list or document,
    /// or else the next card.
    pub open spec fn advanced(self) -> AppModel {
        if model::all_done(self.current_items()) {
            self.on_screen(
                if model::lists_all_done(self.document.lists) {
                    Screen::AllComplete
                } else {
                    Screen::ListComplete
                },
            )
        } else {
            self.next()
        }
    }

    /// The summary that is shown still holds.
    pub open spec fn summary_holds(self) -> bool {
        match self.screen {
            Screen::AllComplete => model::lists_all_done(self.document.lists),
            Screen::ListComplete => model::all_done(self.current_items()),
            _ => true,
        }
    }

    /// The follow-up of toggling the current task.
    pub open spec fn after_toggle(self, pre_state: Seq<(usize, TaskState)>, done: bool) -> AppModel {
        if done {
            self.recorded(pre_state).advanced()
        } else {
            self.recorded(pre_state).on_screen(Screen::Checklist)
        }
    }

    /// The follow-up of toggling a task of the overview: a summary that no
    /// longer holds goes, but none appears.
    pub open spec fn after_overview(
        self,
        pre_state: Seq<(usize, TaskState)>,
        done: bool,
    ) -> AppModel {
        let kept = self.recorded(pre_state);
        let there = if kept.summary_holds() {
            kept
        } else {
            kept.on_screen(Screen::Checklist)
        };
        there.with_status(
            if done {
                "Marked done"@
            } else {
                "Marked not done"@
            },
        )
    }

    /// The follow-up of starting the current task.
    pub open spec fn after_start(self, pre_state: Seq<(usize, TaskState)>) -> AppModel {
        self.recorded(pre_state).on_screen(Screen::Checklist)
    }

    /// The follow-up of resetting all tasks.
    pub open spec fn after_reset(self, pre_state: Seq<(usize, TaskState)>) -> AppModel {
        self.recorded(pre_state).on_screen(Screen::Checklist).with_status(
            "All tasks reset to not done"@,
        )
    }

    /// The follow-up of undoing or redoing: the state before can be redone or
    /// undone in turn.
    pub open spec fn after_history(
        self,
        pre_state: Seq<(usize, TaskState)>,
        redo: bool,
        changed: Seq<usize>,
    ) -> AppModel {
        self.history_reported(redo, changed).with_step(redo, pre_state)
    }

    /// A step added to the history: to what can be undone after a redo, to
    /// what can be redone after an undo.
    pub open spec fn with_step(self, redo: bool, pre_state: Seq<(usize, TaskState)>) -> AppModel {
        if redo {
            AppModel { undo_stack: self.undo_stack.push(pre_state), ..self }
        } else {
            AppModel { redo_stack: self.redo_stack.push(pre_state), ..self }
        }
    }

    /// The follow-up of a change that was written.
    pub open spec fn followed_up(
        self,
        pre_state: Seq<(usize, TaskState)>,
        then_do: AfterWriteModel,
    ) -> AppModel {
        match then_do {
            AfterWriteModel::Toggle { done } => self.after_toggle(pre_state, done),
            AfterWriteModel::Start => self.after_start(pre_state),
            AfterWriteModel::Overview { done } => self.after_overview(pre_state, done),
            AfterWriteModel::Reset => self.after_reset(pre_state),
            AfterWriteModel::History { redo, changed, .. } => {
                self.after_history(pre_state, redo, changed)
            },
        }
    }

    /// A history step that came to nothing is there to be taken again.
    pub open spec fn history_kept(self, then_do: AfterWriteModel) -> AppModel {
        match then_do {
            AfterWriteModel::History { redo, snapshot, .. } => self.with_step(!redo, snapshot),
            _ => self,
        }
    }

    /// What was written noted: `stat` is the file's modification time and size
    /// afterwards, where they could be read.
    pub open spec fn noted_written(
        self,
        stat: Option<(u128, u64)>,
        change_desc: Seq<char>,
    ) -> AppModel {
        let content = self.document.contents();
        AppModel {
            file_mtime: match stat {
                Some(s) => Some(s.0),
                None => None,
            },
            file_size: match stat {
                Some(s) => Some(s.1),
                None => None,
            },
            file_content_hash: Some(text::text_hash(content)),
            last_update_at: Some(self.now),
            sync_pending: Some(
                SyncModel {
                    content,
                    content_hash: text::text_hash(content),
                    previous_content_hash: self.file_content_hash,
                    description: change_desc,
                },
            ),
            pending_write: None,
            ..self
        }
    }

    /// The change was written.
    pub open spec fn written(self, stat: Option<(u128, u64)>) -> AppModel {
        match self.pending_write {
            None => self,
            Some(write) => self.noted_written(stat, write.change_desc).followed_up(
                write.pre_state,
                write.then_do,
            ),
        }
    }

    /// The change taken back.
    pub open spec fn taken_back(self, pre_state: Seq<(usize, TaskState)>) -> AppModel {
        AppModel { pending_write: None, ..self }.with_states(pre_state)
    }

    /// The change could not be written: it is taken back.
    pub open spec fn not_written(self) -> AppModel {
        match self.pending_write {
            None => self,
            Some(write) => self.taken_back(write.pre_state).with_error(
                write.fail_msg,
            ).history_kept(write.then_do),
        }
    }

    /// The file had changed, so the change is taken back, and what the file
    /// holds now, where it could be looked up, is loaded. A history step that
    /// came to nothing is there to be taken again, unless the history went
    /// with the reload.
    pub open spec fn conflicted(self, disk: Option<DiskModel>) -> AppModel {
        match self.pending_write {
            None => self,
            Some(write) => self.taken_back(write.pre_state).reread(
                disk,
                write.then_do,
            ).with_error("File changed on disk — reloaded; change not saved, please retry"@),
        }
    }

    /// What the file holds now loaded, if it could be looked up.
    pub open spec fn reread(self, disk: Option<DiskModel>, then_do: AfterWriteModel) -> AppModel {
        match disk {
            Some(d) => if d.adoptable() {
                self.reloaded(d, self.file_deleted)
            } else {
                self.reloaded(d, self.file_deleted).history_kept(then_do)
            },
            None => self.history_kept(then_do),
        }
    }

    // ----- Reloading ---------------------------------------------------

    /// The cursor on the list of the same title, and of the lists with that
    /// title the one of the same rank; and there on the card of the same line.
    /// What is not found again falls back to the beginning.
    pub open spec fn remapped(self, new: DocumentModel) -> (usize, usize) {
        let title = self.document.lists[self.current_list_index as int].title@;
        let rank = title_rank(self.document.lists, self.current_list_index as int, title);
        let list = ranked_list(new.lists, title, rank);
        let item = match self.current_item() {
            Some(card) => match text::first_from(
                new.lists[list].items,
                document::on_line(card.line_number),
                0,
            ) {
                Some(i) => i as usize,
                None => 0,
            },
            None => 0,
        };
        (list as usize, item)
    }

    /// The file's modification time and size noted.
    pub open spec fn noted_disk(self, mtime: u128, size: u64) -> AppModel {
        AppModel {
            file_deleted: false,
            file_mtime: Some(mtime),
            file_size: Some(size),
            ..self
        }
    }

    /// A new version of the document taken over.
    pub open spec fn adopted(
        self,
        new: DocumentModel,
        hash: Option<ContentHash>,
        was_deleted: bool,
    ) -> AppModel {
        let place = self.remapped(new);
        AppModel {
            document: new,
            file_content_hash: hash,
            last_update_at: Some(self.now),
            undo_stack: Seq::empty(),
            redo_stack: Seq::empty(),
            ..self
        }.shown(place.0, place.1).auto_copied(CopyReport::Never).with_status(
            if was_deleted {
                "File restored — reloaded"@
            } else {
                "Reloaded: file changed on disk"@
            },
        )
    }

    /// The file as found on disk taken over, or the reason why not. Only what
    /// is taken over counts as seen.
    pub open spec fn reloaded(self, disk: DiskModel, was_deleted: bool) -> AppModel {
        let noted = self.noted_disk(disk.mtime, disk.size);
        match disk.parsed {
            ParsedModel::Failed(reason) => noted.with_error("Reload failed: "@ + reason),
            ParsedModel::Read(new) => if new.lists.len() == 0 {
                noted.with_error("Reload skipped: file has no checklist items"@)
            } else {
                noted.adopted(new, disk.hash, was_deleted)
            },
        }
    }

    /// The file that was looked up is not the one that was last seen: it was
    /// gone, or it has another modification time or size.
    pub open spec fn changed_on_disk(self, mtime: u128, size: u64) -> bool {
        self.file_deleted || self.file_mtime != Some(mtime) || self.file_size != Some(size)
    }

    /// The file was found to be gone.
    pub open spec fn gone(self) -> AppModel {
        if self.file_deleted {
            self
        } else {
            AppModel { file_deleted: true, ..self }.with_error(
                "File deleted — changes cannot be saved"@,
            )
        }
    }

    // ----- Finished lists ----------------------------------------------

    /// From a finished list to the next one with a task not done; with none,
    /// the summary of the whole document.
    pub open spec fn advanced_list(self) -> AppModel {
        match self.next_incomplete() {
            Some(i) => self.at_list(i as usize),
            None => self.on_screen(Screen::AllComplete),
        }
    }

    /// Back to the last card of the last list.
    pub open spec fn at_last_list(self) -> AppModel {
        self.shown(
            (self.document.lists.len() - 1) as usize,
            last_index(self.document.lists.last().items.len()),
        ).auto_copied(CopyReport::OnSuccess)
    }

    // ----- Mouse -------------------------------------------------------

    /// The wheel turned up.
    pub open spec fn wheel_up(self) -> AppModel {
        let cleared = self.without_chords();
        if self.screen != Screen::Checklist {
            cleared
        } else if self.card_max_scroll > 0 {
            cleared.card_up(1)
        } else {
            cleared.prev()
        }
    }

    /// The wheel turned down.
    pub open spec fn wheel_down(self) -> AppModel {
        let cleared = self.without_chords();
        if self.screen != Screen::Checklist {
            cleared
        } else if self.card_max_scroll > 0 {
            cleared.card_down(1)
        } else {
            cleared.next()
        }
    }

    /// The row of the overview at a cell, while the overview can be clicked.
    pub open spec fn overview_hit(self, col: u16, row: u16) -> Option<OverviewTarget> {
        if content_screen(self.screen) {
            match text::first_from(self.overview_rows, row_covers(col, row), 0) {
                Some(i) => Some(self.overview_rows[i].1),
                None => None,
            }
        } else {
            None
        }
    }

    /// A row of the overview clicked.
    pub open spec fn row_clicked(self, target: OverviewTarget) -> AppModel {
        match target {
            OverviewTarget::List(list) => self.at_list(list),
            OverviewTarget::Item(list, item) => self.focused(list, item).auto_copied(
                CopyReport::OnSuccess,
            ),
            OverviewTarget::Toggle(list, item) => self.item_toggled(list, item),
        }
    }

    /// The card, or a cell beside it, clicked.
    pub open spec fn card_clicked(self, col: u16, row: u16) -> AppModel {
        match text::first_from(self.code_regions, region_covers(col, row), 0) {
            Some(i) => self.copying(self.code_regions[i].1@, CopyReport::Always),
            None => if self.card_rect matches Some(card) && card.covers(col, row) {
                self.code_copied()
            } else {
                self
            },
        }
    }

    /// A left click at a cell.
    pub open spec fn clicked(self, col: u16, row: u16) -> AppModel {
        let cleared = self.without_chords();
        match self.overview_hit(col, row) {
            Some(target) => cleared.row_clicked(target),
            None => if self.screen == Screen::Checklist {
                cleared.card_clicked(col, row)
            } else {
                cleared
            },
        }
    }

    // ----- Keys --------------------------------------------------------

    /// A key in the dialog that asks about a reset.
    pub open spec fn confirm_key(self, code: KeyCode) -> AppModel {
        if self.screen == Screen::ConfirmReset {
            match code {
                KeyCode::Char('y') => self.all_reset(),
                _ => self.on_screen(self.screen_before_confirm),
            }
        } else {
            match code {
                KeyCode::Char('y') => AppModel { should_quit: true, ..self.all_reset() },
                KeyCode::Char('n') => AppModel { should_quit: true, ..self },
                _ => self.on_screen(self.screen_before_confirm),
            }
        }
    }

    /// A key in the help overlay.
    pub open spec fn help_key(self, code: KeyCode, ctrl: bool) -> AppModel {
        let half = Self::half_of(self.help_viewport_height);
        let page = Self::page_of(self.help_viewport_height);
        if code == KeyCode::Char('j') || code == KeyCode::Down || (code == KeyCode::Char('e')
            && ctrl) {
            self.help_down(1)
        } else if code == KeyCode::Char('k') || code == KeyCode::Up || (code == KeyCode::Char('y')
            && ctrl) {
            self.help_up(1)
        } else if code == KeyCode::Char('d') && ctrl {
            self.help_down(half)
        } else if code == KeyCode::Char('u') && ctrl {
            self.help_up(half)
        } else if code == KeyCode::PageDown {
            self.help_down(page)
        } else if code == KeyCode::PageUp {
            self.help_up(page)
        } else {
            self.on_screen(self.screen_before_confirm)
        }
    }

    /// A key in the search.
    pub open spec fn search_key(self, code: KeyCode, ctrl: bool) -> AppModel {
        match code {
            KeyCode::Esc => self.search_cancelled(),
            KeyCode::Enter => self.search_committed(),
            KeyCode::Backspace => if self.search_query.len() == 0 {
                self.search_followed()
            } else {
                self.with_query(self.search_query.drop_last())
            },
            KeyCode::Char(c) => if ctrl {
                self
            } else {
                self.with_query(self.search_query.push(c))
            },
            _ => self,
        }
    }

    /// A key in the go-to-task overlay.
    pub open spec fn picker_key(self, code: KeyCode, ctrl: bool) -> AppModel {
        if code == KeyCode::Esc {
            self.on_screen(self.screen_before_confirm)
        } else if code == KeyCode::Enter {
            self.picked()
        } else if code == KeyCode::Up || (code == KeyCode::Char('p') && ctrl) {
            self.picker_moved(-1)
        } else if code == KeyCode::Down || (code == KeyCode::Char('n') && ctrl) {
            self.picker_moved(1)
        } else if code == KeyCode::Char('d') && ctrl {
            self.picker_moved(self.picker_half())
        } else if code == KeyCode::Char('u') && ctrl {
            self.picker_moved(-self.picker_half())
        } else if code == KeyCode::Backspace {
            self.with_filter(
                if self.picker_query.len() == 0 {
                    self.picker_query
                } else {
                    self.picker_query.drop_last()
                },
            )
        } else {
            match code {
                KeyCode::Char(c) => if ctrl {
                    self
                } else {
                    self.with_filter(self.picker_query.push(c))
                },
                _ => self,
            }
        }
    }

    /// A key that scrolls the card; `None` for any other key.
    pub open spec fn scroll_key(self, code: KeyCode, ctrl: bool) -> Option<AppModel> {
        let half = Self::half_of(self.card_viewport_height);
        let page = Self::page_of(self.card_viewport_height);
        if ctrl && code == KeyCode::Char('e') {
            Some(self.card_down(1))
        } else if ctrl && code == KeyCode::Char('y') {
            Some(self.card_up(1))
        } else if ctrl && code == KeyCode::Char('d') {
            Some(self.card_down(half))
        } else if ctrl && code == KeyCode::Char('u') {
            Some(self.card_up(half))
        } else if code == KeyCode::PageDown {
            Some(self.card_down(page))
        } else if code == KeyCode::PageUp {
            Some(self.card_up(page))
        } else {
            None
        }
    }

    /// The help overlay opened, at its top.
    pub open spec fn helped(self) -> AppModel {
        AppModel {
            screen_before_confirm: self.screen,
            help_scroll: 0,
            screen: Screen::Help,
            ..self
        }
    }

    /// Leaving: at once, or after asking about a reset when every task is
    /// done.
    pub open spec fn leaving(self) -> AppModel {
        if model::has_tasks(self.document.lists) && model::lists_all_done(self.document.lists) {
            AppModel {
                screen_before_confirm: self.screen,
                screen: Screen::ConfirmQuitReset,
                ..self
            }
        } else {
            AppModel { should_quit: true, ..self }
        }
    }

    /// A key that means the same on every content screen; `None` for any
    /// other key.
    pub open spec fn global_key(self, code: KeyCode, ctrl: bool) -> Option<AppModel> {
        match code {
            KeyCode::Char('?') => Some(self.helped()),
            KeyCode::Char('T') => Some(self.picking()),
            KeyCode::Char('q') => Some(self.leaving()),
            KeyCode::Esc => Some(self.leaving()),
            KeyCode::Char('e') => Some(AppModel { editor_requested: true, ..self }),
            KeyCode::Char('R') => Some(self.reset_requested()),
            KeyCode::Char('u') => if ctrl {
                None
            } else {
                Some(self.undone())
            },
            KeyCode::Char('r') => if ctrl {
                Some(self.redone())
            } else {
                None
            },
            KeyCode::Tab => Some(self.at_next_incomplete_task()),
            KeyCode::Char('L') => Some(self.at_next_incomplete_list()),
            KeyCode::Char('H') => Some(self.at_prev_incomplete_list()),
            KeyCode::Char(c) => if '1' <= c && c <= '9' {
                Some(self.at_list((c as int - '1' as int) as usize))
            } else {
                None
            },
            _ => None,
        }
    }

    /// A `g` pressed: the second of `gg` goes to the first card.
    pub open spec fn g_pressed(self, pending_g: bool) -> AppModel {
        if pending_g {
            self.at_first()
        } else {
            AppModel { pending_g: true, ..self }
        }
    }

    /// A key on the checklist.
    pub open spec fn checklist_key(self, code: KeyCode, pending_g: bool) -> AppModel {
        match code {
            KeyCode::Char('h') | KeyCode::Left | KeyCode::Char('k') | KeyCode::Up => self.backward(),
            KeyCode::Char('l') | KeyCode::Right | KeyCode::Char('j') | KeyCode::Down => {
                self.forward()
            },
            KeyCode::Char('g') => self.g_pressed(pending_g),
            KeyCode::Char('G') => self.at_last(),
            KeyCode::Char('}') => self.at_sub_section(true),
            KeyCode::Char('{') => self.at_sub_section(false),
            KeyCode::Char('/') => self.searching(),
            KeyCode::Char('n') => self.search_cycled(true),
            KeyCode::Char('N') => self.search_cycled(false),
            KeyCode::Char(' ') | KeyCode::Enter => self.toggled(),
            KeyCode::Char('s') => self.started(),
            KeyCode::Char('y') => self.code_copied(),
            KeyCode::Char('o') => self.current_link_opened(),
            _ => self,
        }
    }

    /// A key on the summary of a finished list.
    pub open spec fn list_complete_key(self, code: KeyCode) -> AppModel {
        match code {
            KeyCode::Char('l') | KeyCode::Right | KeyCode::Char('j') | KeyCode::Down
            | KeyCode::Enter => self.advanced_list(),
            KeyCode::Char('h') | KeyCode::Left | KeyCode::Char('k') | KeyCode::Up => {
                self.on_screen(Screen::Checklist)
            },
            _ => self,
        }
    }

    /// A key on the summary of a finished document.
    pub open spec fn all_complete_key(self, code: KeyCode) -> AppModel {
        match code {
            KeyCode::Char('h') | KeyCode::Left | KeyCode::Char('k') | KeyCode::Up => {
                self.at_last_list()
            },
            _ => self,
        }
    }

    /// A key that answers the question which link to open; `None` for any
    /// other key.
    pub open spec fn link_key(self, code: KeyCode) -> Option<AppModel> {
        match code {
            KeyCode::Char(c) => if '1' <= c && c <= '9' {
                Some(self.link_number_opened(c as int - '0' as int))
            } else {
                None
            },
            KeyCode::Esc => Some(self),
            _ => None,
        }
    }

    /// A key on the screen that is shown.
    pub open spec fn screen_key(self, code: KeyCode, ctrl: bool, pending_g: bool) -> AppModel {
        match self.screen {
            Screen::ConfirmReset | Screen::ConfirmQuitReset => self.confirm_key(code),
            Screen::Help => self.help_key(code, ctrl),
            Screen::Search => self.search_key(code, ctrl),
            Screen::ListPicker => self.picker_key(code, ctrl),
            Screen::Checklist => match self.scroll_key(code, ctrl) {
                Some(after) => after,
                None => match self.global_key(code, ctrl) {
                    Some(after) => after,
                    None => self.checklist_key(code, pending_g),
                },
            },
            Screen::ListComplete => match self.global_key(code, ctrl) {
                Some(after) => after,
                None => self.list_complete_key(code),
            },
            Screen::AllComplete => match self.global_key(code, ctrl) {
                Some(after) => after,
                None => self.all_complete_key(code),
            },
        }
    }

    /// A key pressed. The message goes and half-typed commands end; a digit
    /// that a card with several links waits for goes before everything else.
    pub open spec fn key(self, code: KeyCode, modifiers: KeyModifiers) -> AppModel {
        let start = self.without_chords();
        if self.pending_open_link && start.link_key(code) is Some {
            start.link_key(code)->0
        } else {
            start.screen_key(code, modifiers.control, self.pending_g)
        }
    }
}

impl DiskModel {
    /// The file was understood and has a checklist.
    pub open spec fn adoptable(self) -> bool {
        self.parsed matches ParsedModel::Read(new) && new.lists.len() > 0
    }
}

} // verus!
