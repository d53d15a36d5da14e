//! The application: the cursor, messages, copying, searching, scrolling.

use vstd::prelude::*;

use crate::app_state::{
    AppModel, AppState, CopyReport, CopyRequest, GitSyncState, HelpState, PendingSync, PickerState,
    Screen, SearchState, STATUS_TIMEOUT_MS,
};
use crate::clipboard::{candidates, CopyOutcome};
use crate::document::{first_undone_index, incomplete_list_before, incomplete_list_from};
use crate::model::{Document, Item, List};
use crate::text::{copy_of, ContentHash, decimal_text, is_safe_link, join2, join3};
use crate::{app_spec, clipboard, model, text};

verus! {

/// What is known of a file on disk: its modification time, its size, and the
/// hash of its content.
#[derive(Clone, Copy, Debug, PartialEq, Eq)]
pub struct DiskStamp {
    pub mtime: Option<u128>,
    pub size: Option<u64>,
    pub hash: Option<ContentHash>,
}

/// The plural ending for `n` things.
pub fn plural_of(n: usize) -> (r: &'static str)
    ensures
        r@ == app_spec::plural(n as int),
{
    if n == 1 {
        ""
    } else {
        "s"
    }
}

impl AppState {
    /// Wraps a document for interactive use. The cursor starts on the first
    /// task that is not done. The document has at least one list.
    pub fn new(document: Document, disk: DiskStamp) -> (r: AppState)
        requires
            document.lists@.len() > 0,
        ensures
            r@ == AppModel::initial(document@, disk.mtime, disk.size, disk.hash),
            r@.wf(),
            r@.ready(),
    {
        let ghost lists = document@.lists;
        let (list, item): (usize, usize) = match incomplete_list_from(&document.lists, 0) {
            Some(list) => {
                proof {
                    text::lemma_first_from(lists, model::list_has_open(), 0);
                }
                match first_undone_index(&document.lists[list]) {
                    Some(item) => (list, item),
                    None => (list, 0),
                }
            },
            None => (0, 0),
        };
        proof {
            text::lemma_first_from(lists, model::list_has_open(), 0);
            text::lemma_first_from(lists[list as int].items, model::open_item(), 0);
        }
        AppState {
            document,
            current_list_index: list,
            current_item_index: item,
            screen: Screen::Checklist,
            status_message: None,
            status_expiry: None,
            status_is_error: false,
            should_quit: false,
            file_mtime: disk.mtime,
            file_size: disk.size,
            file_content_hash: disk.hash,
            last_update_at: None,
            git_sync: GitSyncState { pending: None, last_at: None },
            card_scroll: 0,
            card_max_scroll: 0,
            card_viewport_height: 0,
            card_rect: None,
            code_regions: Vec::new(),
            overview_rows: Vec::new(),
            pending_g: false,
            pending_open_link: false,
            editor_requested: false,
            screen_before_confirm: Screen::Checklist,
            clipboard_primary: false,
            auto_copy: false,
            file_deleted: false,
            search: SearchState { query: String::new(), origin: (0, 0), last: None },
            picker: PickerState { query: String::new(), selection: 0, viewport_height: 0 },
            link_open_request: None,
            help: HelpState { scroll: 0, max_scroll: 0, viewport_height: 0 },
            undo_stack: Vec::new(),
            redo_stack: Vec::new(),
            copy_request: None,
            pending_write: None,
            now: 0,
        }
    }

    // ----- The cursor --------------------------------------------------

    /// The list under the cursor.
    pub fn current_list(&self) -> (r: &List)
        requires
            self@.has_list(),
        ensures
            r@ == self@.document.lists[self@.current_list_index as int],
            *r == self.document.lists@[self.current_list_index as int],
    {
        &self.document.lists[self.current_list_index]
    }

    /// The card under the cursor; `None` where the list has no cards.
    pub fn current_item(&self) -> (r: Option<&Item>)
        requires
            self@.has_list(),
        ensures
            r is Some == self@.current_item() is Some,
            r matches Some(item) ==> *item == self@.current_item()->0,
    {
        let list = self.current_list();
        if self.current_item_index < list.items.len() {
            Some(&list.items[self.current_item_index])
        } else {
            None
        }
    }

    /// Scrolls the card to its top.
    fn reset_card_scroll(&mut self)
        ensures
            final(self)@ == old(self)@.unscrolled(),
    {
        self.card_scroll = 0;
        self.card_max_scroll = 0;
    }

    /// Moves the cursor and scrolls the card to its top.
    pub(crate) fn move_to(&mut self, list: usize, item: usize)
        ensures
            final(self)@ == old(self)@.moved(list, item),
    {
        self.current_list_index = list;
        self.current_item_index = item;
        self.reset_card_scroll();
    }

    /// Moves the cursor and shows the card.
    pub(crate) fn show(&mut self, list: usize, item: usize)
        ensures
            final(self)@ == old(self)@.shown(list, item),
    {
        self.move_to(list, item);
        self.screen = Screen::Checklist;
    }

    /// Goes one card on, within the list.
    pub fn navigate_next(&mut self)
        requires
            old(self)@.has_list(),
        ensures
            final(self)@ == old(self)@.next(),
    {
        let last: usize = self.current_list().items.len().saturating_sub(1);
        if self.current_item_index < last {
            self.current_item_index += 1;
        }
        self.reset_card_scroll();
        self.maybe_auto_copy();
    }

    /// Goes one card back, within the list.
    pub fn navigate_prev(&mut self)
        requires
            old(self)@.has_list(),
        ensures
            final(self)@ == old(self)@.prev(),
    {
        self.current_item_index = self.current_item_index.saturating_sub(1);
        self.reset_card_scroll();
        self.maybe_auto_copy();
    }

    /// Goes to a list: to its first task that is not done, or else to its
    /// first card. Says so where there is no such list.
    #[verifier::rlimit(30)]
    pub fn jump_to_list(&mut self, index: usize)
        ensures
            final(self)@ == old(self)@.at_list(index),
    {
        let n: usize = self.document.lists.len();
        if index < n {
            let item: usize = match first_undone_index(&self.document.lists[index]) {
                Some(i) => i,
                None => 0,
            };
            self.show(index, item);
            self.maybe_auto_copy();
        } else {
            let number = decimal_text(index as u128 + 1);
            let count = decimal_text(n as u128);
            let msg = join3("No list ", number.as_str(), ": this document has ").concat(
                count.as_str(),
            ).concat(" list").concat(plural_of(n));
            self.set_error(msg);
        }
    }

    /// Goes to one card and shows it. A card beyond the end of its list is
    /// taken for the last one; a list that does not exist, or has no cards, is
    /// ignored.
    pub fn focus_item(&mut self, list_index: usize, item_index: usize)
        ensures
            final(self)@ == old(self)@.focused(list_index, item_index),
    {
        if list_index >= self.document.lists.len() {
            return;
        }
        let count: usize = self.document.lists[list_index].items.len();
        if count == 0 {
            return;
        }
        let item: usize = if item_index < count - 1 {
            item_index
        } else {
            count - 1
        };
        self.show(list_index, item);
    }

    // ----- Messages ----------------------------------------------------

    /// Sets a passing message, which goes after a while.
    pub fn set_status(&mut self, msg: String)
        ensures
            final(self)@ == old(self)@.with_status(msg@),
    {
        self.status_message = Some(msg);
        self.status_expiry = Some(self.now.saturating_add(STATUS_TIMEOUT_MS));
        self.status_is_error = false;
    }

    /// Sets a message that stays until the next input.
    pub fn set_error(&mut self, msg: String)
        ensures
            final(self)@ == old(self)@.with_error(msg@),
    {
        self.status_message = Some(msg);
        self.status_expiry = None;
        self.status_is_error = true;
    }

    /// Clears the message.
    pub fn clear_status(&mut self)
        ensures
            final(self)@ == old(self)@.without_status(),
    {
        self.status_message = None;
        self.status_expiry = None;
        self.status_is_error = false;
    }

    /// Clears the message and any half-typed command.
    pub(crate) fn clear_pending_chords(&mut self)
        ensures
            final(self)@ == old(self)@.without_chords(),
    {
        self.clear_status();
        self.pending_g = false;
        self.pending_open_link = false;
    }

    /// Refuses a change when the file is gone. Returns whether it did.
    pub(crate) fn blocked_by_deletion(&mut self) -> (r: bool)
        ensures
            r == old(self)@.file_deleted,
            final(self)@ == if r {
                old(self)@.refused_as_deleted()
            } else {
                old(self)@
            },
    {
        if self.file_deleted {
            self.set_error(copy_of("File was deleted — cannot save changes"));
            true
        } else {
            false
        }
    }

    /// Clears a passing message whose time has come. One that stays is not
    /// touched.
    pub fn expire_status(&mut self, now: u64)
        ensures
            final(self)@ == if old(self)@.status_expiry matches Some(expiry) && now >= expiry {
                old(self)@.without_status()
            } else {
                old(self)@
            },
    {
        let due = match self.status_expiry {
            Some(expiry) => now >= expiry,
            None => false,
        };
        if due {
            self.clear_status();
        }
    }

    /// Tells the time.
    pub fn set_now(&mut self, now: u64)
        ensures
            final(self)@ == (AppModel { now, ..old(self)@ }),
    {
        self.now = now;
    }

    // ----- Copying -----------------------------------------------------

    /// Asks for a copy of `text`.
    fn request_copy(&mut self, text: String, report: CopyReport)
        ensures
            final(self)@ == old(self)@.copying(text@, report),
    {
        self.copy_request = Some(
            CopyRequest { text, primary: self.clipboard_primary, report },
        );
    }

    /// With automatic copying, asks for a copy of the card's one piece of
    /// code; silent where it has none or several.
    pub fn maybe_auto_copy(&mut self)
        requires
            old(self)@.has_list(),
        ensures
            final(self)@ == old(self)@.auto_copied(CopyReport::OnSuccess),
    {
        self.auto_copy_reporting(CopyReport::OnSuccess);
    }

    /// As `maybe_auto_copy`, with a choice of report.
    pub(crate) fn auto_copy_reporting(&mut self, report: CopyReport)
        requires
            old(self)@.has_list(),
        ensures
            final(self)@ == old(self)@.auto_copied(report),
    {
        if !self.auto_copy {
            return;
        }
        let code: Option<String> = match self.current_item() {
            Some(item) => {
                let found = candidates(item);
                if found.len() == 1 {
                    Some(found[0].clone())
                } else {
                    None
                }
            },
            None => None,
        };
        match code {
            Some(text) => self.request_copy(text, report),
            None => {},
        }
    }

    /// Asks for a copy of the card's code, or says why not.
    pub fn copy_current_code(&mut self)
        requires
            old(self)@.has_list(),
        ensures
            final(self)@ == old(self)@.code_copied(),
    {
        let (count, code): (usize, Option<String>) = match self.current_item() {
            None => {
                return;
            },
            Some(item) => {
                let found = candidates(item);
                if found.len() == 1 {
                    (1, Some(found[0].clone()))
                } else {
                    (found.len(), None)
                }
            },
        };
        match code {
            Some(text) => self.request_copy(text, CopyReport::Always),
            None => {
                if count == 0 {
                    self.set_error(copy_of("Nothing to copy: item has no code"));
                } else {
                    let number = decimal_text(count as u128);
                    self.set_error(
                        join3("Not copied: item has ", number.as_str(), " code candidates"),
                    );
                }
            },
        }
    }

    /// Asks for a copy of exactly `text`.
    pub(crate) fn copy_specific(&mut self, text: &str)
        ensures
            final(self)@ == old(self)@.copying(text@, CopyReport::Always),
    {
        self.request_copy(copy_of(text), CopyReport::Always);
    }

    /// Hands out the text to copy, once.
    pub fn take_copy_request(&mut self) -> (r: Option<CopyRequest>)
        ensures
            crate::app_state::copy_model(r) == old(self)@.copy_request,
            final(self)@ == (AppModel { copy_request: None, ..old(self)@ }),
    {
        self.copy_request.take()
    }

    /// Reports what a copy came to.
    pub fn finish_copy(&mut self, report: CopyReport, outcome: CopyOutcome)
        ensures
            final(self)@ == old(self)@.copy_reported(report, outcome),
    {
        if report == CopyReport::Never {
            return;
        }
        match outcome {
            CopyOutcome::CopiedSystem => self.set_status(copy_of("Copied to clipboard")),
            CopyOutcome::CopiedOsc52 => self.set_status(copy_of("Sent to clipboard (OSC 52)")),
            _ => {
                if report == CopyReport::OnSuccess {
                    return;
                }
                match outcome {
                    CopyOutcome::NoCandidates => self.set_error(
                        copy_of("Nothing to copy: item has no code"),
                    ),
                    CopyOutcome::Ambiguous(n) => {
                        let number = decimal_text(n as u128);
                        self.set_error(
                            join3("Not copied: item has ", number.as_str(), " code candidates"),
                        )
                    },
                    CopyOutcome::TooLarge => self.set_error(
                        copy_of("Copy failed: too large for the terminal clipboard (OSC 52)"),
                    ),
                    _ => self.set_error(copy_of("Copy failed: no clipboard available")),
                }
            },
        }
    }

    // ----- Moving about ------------------------------------------------

    /// Why there is no further list with a task not done.
    fn no_further_incomplete_list_message(&self, forward: bool) -> (r: String)
        ensures
            r@ == self@.no_further_list(forward),
    {
        if incomplete_list_from(&self.document.lists, 0).is_some() {
            let edge: &str = if forward {
                "last"
            } else {
                "first"
            };
            join3("Already at the ", edge, " incomplete list")
        } else {
            copy_of("No lists have unfinished tasks")
        }
    }

    /// Goes to the next list that has a task not done, or says that there is
    /// none.
    pub fn jump_to_next_incomplete_list(&mut self)
        requires
            old(self)@.has_list(),
        ensures
            final(self)@ == old(self)@.at_next_incomplete_list(),
    {
        assert(self.document.lists.len() <= usize::MAX);
        match incomplete_list_from(&self.document.lists, self.current_list_index + 1) {
            Some(index) => self.jump_to_list(index),
            None => {
                let msg = self.no_further_incomplete_list_message(true);
                self.set_error(msg)
            },
        }
    }

    /// Goes to the previous list that has a task not done, or says that there
    /// is none.
    pub fn jump_to_prev_incomplete_list(&mut self)
        requires
            old(self)@.has_list(),
        ensures
            final(self)@ == old(self)@.at_prev_incomplete_list(),
    {
        match incomplete_list_before(&self.document.lists, self.current_list_index) {
            Some(index) => self.jump_to_list(index),
            None => {
                let msg = self.no_further_incomplete_list_message(false);
                self.set_error(msg)
            },
        }
    }

    /// Goes to the first card of the document.
    pub fn go_to_first_item(&mut self)
        ensures
            final(self)@ == old(self)@.at_first(),
    {
        if self.document.lists.len() == 0 {
            return;
        }
        self.show(0, 0);
        self.maybe_auto_copy();
    }

    /// Goes to the last card of the document.
    pub fn go_to_last_item(&mut self)
        ensures
            final(self)@ == old(self)@.at_last(),
    {
        let count: usize = self.document.lists.len();
        if count == 0 {
            return;
        }
        let last: usize = count - 1;
        let item: usize = self.document.lists[last].items.len().saturating_sub(1);
        self.show(last, item);
        self.maybe_auto_copy();
    }

    /// Goes one card on, and at the end of a list into the next one. Stays at
    /// the end of the document.
    pub fn navigate_forward(&mut self)
        requires
            old(self)@.has_list(),
        ensures
            final(self)@ == old(self)@.forward(),
    {
        let last: usize = self.current_list().items.len().saturating_sub(1);
        let count: usize = self.document.lists.len();
        if self.current_item_index < last {
            self.navigate_next();
        } else if self.current_list_index + 1 < count {
            self.jump_to_list(self.current_list_index + 1);
        }
    }

    /// Goes one card back, and at the beginning of a list into the previous
    /// one. Stays at the beginning of the document.
    pub fn navigate_backward(&mut self)
        requires
            old(self)@.has_list(),
        ensures
            final(self)@ == old(self)@.backward(),
    {
        if self.current_item_index > 0 {
            self.navigate_prev();
        } else if self.current_list_index > 0 {
            self.jump_to_list(self.current_list_index - 1);
        }
    }

    // ----- Scrolling ---------------------------------------------------

    /// Scrolls the card down by one line.
    pub fn scroll_card_down(&mut self)
        ensures
            final(self)@ == old(self)@.card_down(1),
    {
        self.scroll_card_down_by(1);
    }

    /// Scrolls the card up by one line.
    pub fn scroll_card_up(&mut self)
        ensures
            final(self)@ == old(self)@.card_up(1),
    {
        self.scroll_card_up_by(1);
    }

    /// Scrolls the card down, to its bottom at most.
    pub fn scroll_card_down_by(&mut self, n: u16)
        ensures
            final(self)@ == old(self)@.card_down(n as int),
    {
        let down: u16 = self.card_scroll.saturating_add(n);
        self.card_scroll = if down < self.card_max_scroll {
            down
        } else {
            self.card_max_scroll
        };
    }

    /// Scrolls the card up, to its top at most.
    pub fn scroll_card_up_by(&mut self, n: u16)
        ensures
            final(self)@ == old(self)@.card_up(n as int),
    {
        self.card_scroll = self.card_scroll.saturating_sub(n);
    }

    /// Scrolls the help down, to its bottom at most.
    pub(crate) fn scroll_help_down_by(&mut self, n: u16)
        ensures
            final(self)@ == old(self)@.help_down(n as int),
    {
        let down: u16 = self.help.scroll.saturating_add(n);
        self.help.scroll = if down < self.help.max_scroll {
            down
        } else {
            self.help.max_scroll
        };
    }

    /// Scrolls the help up, to its top at most.
    pub(crate) fn scroll_help_up_by(&mut self, n: u16)
        ensures
            final(self)@ == old(self)@.help_up(n as int),
    {
        self.help.scroll = self.help.scroll.saturating_sub(n);
    }

    /// Half of the rows that the overlay or card shows, one at least.
    pub(crate) fn half_of_height(height: u16) -> (r: u16)
        ensures
            r == AppModel::half_of(height),
    {
        if height < 2 {
            1
        } else {
            height / 2
        }
    }

    /// The rows that the overlay or card shows less one, one at least.
    pub(crate) fn page_of_height(height: u16) -> (r: u16)
        ensures
            r == AppModel::page_of(height),
    {
        if height < 2 {
            1
        } else {
            height - 1
        }
    }

    // ----- Links -------------------------------------------------------

    /// The targets of the links on the card under the cursor.
    fn current_urls(&self) -> (r: Vec<String>)
        requires
            self@.has_list(),
        ensures
            r@ == self@.urls(),
    {
        match self.current_item() {
            Some(item) => item.link_urls(),
            None => Vec::new(),
        }
    }

    /// Opens a link, or refuses it for its scheme.
    fn open_link(&mut self, url: &str)
        ensures
            final(self)@ == old(self)@.link_opened(url@),
    {
        if is_safe_link(url) {
            self.set_status(join2("Opening ", url));
            self.link_open_request = Some(copy_of(url));
        } else {
            self.set_error(join3("Not opened: unsupported link type (", url, ")"));
        }
    }

    /// Opens the card's one link; with several, waits for a digit.
    pub fn open_current_link(&mut self)
        requires
            old(self)@.has_list(),
        ensures
            final(self)@ == old(self)@.current_link_opened(),
    {
        let urls = self.current_urls();
        if urls.len() == 0 {
            self.set_error(copy_of("Nothing to open: card has no link"));
        } else if urls.len() == 1 {
            self.open_link(urls[0].as_str());
        } else {
            self.pending_open_link = true;
        }
    }

    /// Opens link number `n` of the card, counted from one.
    pub fn open_link_number(&mut self, n: usize)
        requires
            old(self)@.has_list(),
            n >= 1,
        ensures
            final(self)@ == old(self)@.link_number_opened(n as int),
    {
        let urls = self.current_urls();
        if n - 1 < urls.len() {
            self.open_link(urls[n - 1].as_str());
        } else {
            let number = decimal_text(n as u128);
            self.set_error(join3("No link [", number.as_str(), "] on this card"));
        }
    }

    /// Hands out the link to open, once.
    pub fn take_link_open_request(&mut self) -> (r: Option<String>)
        ensures
            crate::app_state::text_model(r) == old(self)@.link_open_request,
            final(self)@ == (AppModel { link_open_request: None, ..old(self)@ }),
    {
        self.link_open_request.take()
    }

    // ----- Requests to the event loop ----------------------------------

    /// Whether the editor was asked for; asks no longer.
    pub fn take_editor_request(&mut self) -> (r: bool)
        ensures
            r == old(self)@.editor_requested,
            final(self)@ == (AppModel { editor_requested: false, ..old(self)@ }),
    {
        let asked = self.editor_requested;
        self.editor_requested = false;
        asked
    }

    /// Hands out the last change for git-sync, once.
    pub fn take_git_sync_request(&mut self) -> (r: Option<PendingSync>)
        ensures
            crate::app_state::sync_model(r) == old(self)@.sync_pending,
            final(self)@ == (AppModel { sync_pending: None, ..old(self)@ }),
    {
        self.git_sync.pending.take()
    }

    /// Notes that a change was committed and pushed.
    pub fn record_git_sync(&mut self)
        ensures
            final(self)@ == (AppModel { sync_last_at: Some(old(self)@.now), ..old(self)@ }),
    {
        self.git_sync.last_at = Some(self.now);
    }
}

} // verus!
