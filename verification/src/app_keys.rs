//! The application: what keys, the mouse wheel and clicks do.

use vstd::prelude::*;

use crate::app_state::{AppState, OverviewTarget, Screen};
use crate::document::{all_lists_done, document_has_tasks, incomplete_list_from};
use crate::input::{KeyCode, KeyModifiers};
use crate::{app_spec, text};

verus! {

impl AppState {
    // ----- Mouse -------------------------------------------------------

    /// The wheel turned up: scrolls a card that overflows, or else goes one
    /// card back.
    pub fn handle_scroll_up(&mut self)
        requires
            old(self)@.has_list(),
        ensures
            final(self)@ == old(self)@.wheel_up(),
    {
        self.clear_pending_chords();
        if self.screen == Screen::Checklist {
            if self.card_max_scroll > 0 {
                self.scroll_card_up();
            } else {
                self.navigate_prev();
            }
        }
    }

    /// The wheel turned down: scrolls a card that overflows, or else goes one
    /// card on.
    pub fn handle_scroll_down(&mut self)
        requires
            old(self)@.has_list(),
        ensures
            final(self)@ == old(self)@.wheel_down(),
    {
        self.clear_pending_chords();
        if self.screen == Screen::Checklist {
            if self.card_max_scroll > 0 {
                self.scroll_card_down();
            } else {
                self.navigate_next();
            }
        }
    }

    /// The row of the overview at a cell, while the overview can be clicked.
    fn overview_target(&self, col: u16, row: u16) -> (r: Option<OverviewTarget>)
        ensures
            r == self@.overview_hit(col, row),
    {
        match self.screen {
            Screen::Checklist | Screen::ListComplete | Screen::AllComplete => {},
            _ => {
                return None;
            },
        }
        let ghost p = app_spec::row_covers(col, row);
        let mut i: usize = 0;
        while i < self.overview_rows.len()
            invariant
                p == app_spec::row_covers(col, row),
                app_spec::content_screen(self@.screen),
                i <= self.overview_rows@.len(),
                forall|j: int| 0 <= j < i ==> !p(#[trigger] self.overview_rows@[j]),
            decreases self.overview_rows.len() - i,
        {
            if self.overview_rows[i].0.contains(col, row) {
                proof {
                    text::lemma_first_from_is(self.overview_rows@, p, 0, i as int);
                }
                return Some(self.overview_rows[i].1);
            }
            i += 1;
        }
        proof {
            text::lemma_first_from_none(self.overview_rows@, p, 0);
        }
        None
    }

    /// The piece of code shown at a cell of the card.
    fn code_region(&self, col: u16, row: u16) -> (r: Option<usize>)
        ensures
            text::as_index(r) == text::first_from(
                self@.code_regions,
                app_spec::region_covers(col, row),
                0,
            ),
            r matches Some(i) ==> i < self@.code_regions.len(),
    {
        let ghost p = app_spec::region_covers(col, row);
        let mut i: usize = 0;
        while i < self.code_regions.len()
            invariant
                p == app_spec::region_covers(col, row),
                i <= self.code_regions@.len(),
                forall|j: int| 0 <= j < i ==> !p(#[trigger] self.code_regions@[j]),
            decreases self.code_regions.len() - i,
        {
            if self.code_regions[i].0.contains(col, row) {
                proof {
                    text::lemma_first_from_is(self.code_regions@, p, 0, i as int);
                }
                return Some(i);
            }
            i += 1;
        }
        proof {
            text::lemma_first_from_none(self.code_regions@, p, 0);
        }
        None
    }

    /// A click on a row of the overview.
    fn click_overview(&mut self, target: OverviewTarget)
        requires
            old(self)@.ready(),
        ensures
            final(self)@ == old(self)@.row_clicked(target),
    {
        match target {
            OverviewTarget::List(list) => self.jump_to_list(list),
            OverviewTarget::Item(list, item) => {
                self.focus_item(list, item);
                self.maybe_auto_copy();
            },
            OverviewTarget::Toggle(list, item) => self.toggle_item(list, item),
        }
    }

    /// A click on the card, or beside it.
    fn click_card(&mut self, col: u16, row: u16)
        requires
            old(self)@.ready(),
        ensures
            final(self)@ == old(self)@.card_clicked(col, row),
    {
        match self.code_region(col, row) {
            Some(i) => {
                let code = self.code_regions[i].1.clone();
                self.copy_specific(code.as_str());
            },
            None => {
                let on_card = match self.card_rect {
                    Some(card) => card.contains(col, row),
                    None => false,
                };
                if on_card {
                    self.copy_current_code();
                }
            },
        }
    }

    /// A left click: on a row of the overview goes there or toggles the task;
    /// on a piece of code of the card copies it; elsewhere on the card copies
    /// the card's one piece of code.
    pub fn handle_left_click(&mut self, col: u16, row: u16)
        requires
            old(self)@.ready(),
        ensures
            final(self)@ == old(self)@.clicked(col, row),
    {
        let ghost before = self@;
        self.clear_pending_chords();
        assert(self@.overview_hit(col, row) == before.overview_hit(col, row));
        match self.overview_target(col, row) {
            Some(target) => self.click_overview(target),
            None => {
                if self.screen == Screen::Checklist {
                    self.click_card(col, row);
                }
            },
        }
    }

    // ----- Keys --------------------------------------------------------

    /// A key without modifiers.
    pub fn handle_key(&mut self, code: KeyCode)
        requires
            old(self)@.ready(),
        ensures
            final(self)@ == old(self)@.key(code, (KeyModifiers { control: false })),
    {
        self.handle_key_with_mods(code, KeyModifiers { control: false });
    }

    /// A key. The message goes and half-typed commands end; a digit that a
    /// card with several links waits for goes before everything else. Then a
    /// dialog or overlay takes the key; on the checklist the keys that scroll
    /// the card come next, then those that mean the same on every screen, then
    /// those of the screen.
    pub fn handle_key_with_mods(&mut self, code: KeyCode, modifiers: KeyModifiers)
        requires
            old(self)@.ready(),
        ensures
            final(self)@ == old(self)@.key(code, modifiers),
    {
        let pending_g = self.pending_g;
        let pending_open_link = self.pending_open_link;
        self.clear_pending_chords();
        if pending_open_link && self.handle_pending_open_link_key(code) {
            return;
        }
        self.handle_screen_key(code, modifiers.control, pending_g);
    }

    /// A key on the screen that is shown.
    fn handle_screen_key(&mut self, code: KeyCode, ctrl: bool, pending_g: bool)
        requires
            old(self)@.ready(),
        ensures
            final(self)@ == old(self)@.screen_key(code, ctrl, pending_g),
    {
        match self.screen {
            Screen::ConfirmReset | Screen::ConfirmQuitReset => self.handle_confirm_key(code),
            Screen::Help => self.handle_help_key(code, ctrl),
            Screen::Search => self.handle_search_key(code, ctrl),
            Screen::ListPicker => self.handle_picker_key(code, ctrl),
            Screen::Checklist => {
                if !self.handle_checklist_scroll_key(code, ctrl) {
                    if !self.handle_global_key(code, ctrl) {
                        self.handle_checklist_key(code, pending_g);
                    }
                }
            },
            Screen::ListComplete => {
                if !self.handle_global_key(code, ctrl) {
                    self.handle_list_complete_key(code);
                }
            },
            Screen::AllComplete => {
                if !self.handle_global_key(code, ctrl) {
                    self.handle_all_complete_key(code);
                }
            },
        }
    }

    /// A key while the application waits for the number of a link. Returns
    /// whether the key was taken; another key does what it always does.
    fn handle_pending_open_link_key(&mut self, code: KeyCode) -> (r: bool)
        requires
            old(self)@.ready(),
        ensures
            match old(self)@.link_key(code) {
                Some(after) => r && final(self)@ == after,
                None => !r && final(self)@ == old(self)@,
            },
    {
        match code {
            KeyCode::Char(c) => {
                if '1' <= c && c <= '9' {
                    let n: usize = (c as u8 - 48) as usize;
                    self.open_link_number(n);
                    true
                } else {
                    false
                }
            },
            KeyCode::Esc => true,
            _ => false,
        }
    }

    /// A key in a dialog that asks about a reset. Only `y` resets.
    #[verifier::rlimit(30)]
    fn handle_confirm_key(&mut self, code: KeyCode)
        requires
            old(self)@.ready(),
        ensures
            final(self)@ == old(self)@.confirm_key(code),
    {
        if self.screen == Screen::ConfirmReset {
            if code == KeyCode::Char('y') {
                self.reset_all();
            } else {
                self.screen = self.screen_before_confirm;
            }
        } else {
            if code == KeyCode::Char('y') {
                self.reset_all();
                self.should_quit = true;
            } else if code == KeyCode::Char('n') {
                self.should_quit = true;
            } else {
                self.screen = self.screen_before_confirm;
            }
        }
    }

    /// A key in the help overlay: scrolls it, or closes it.
    fn handle_help_key(&mut self, code: KeyCode, ctrl: bool)
        ensures
            final(self)@ == old(self)@.help_key(code, ctrl),
    {
        let half: u16 = Self::half_of_height(self.help.viewport_height);
        let page: u16 = Self::page_of_height(self.help.viewport_height);
        if code == KeyCode::Char('j') || code == KeyCode::Down || (code == KeyCode::Char('e')
            && ctrl) {
            self.scroll_help_down_by(1);
        } else if code == KeyCode::Char('k') || code == KeyCode::Up || (code == KeyCode::Char('y')
            && ctrl) {
            self.scroll_help_up_by(1);
        } else if code == KeyCode::Char('d') && ctrl {
            self.scroll_help_down_by(half);
        } else if code == KeyCode::Char('u') && ctrl {
            self.scroll_help_up_by(half);
        } else if code == KeyCode::PageDown {
            self.scroll_help_down_by(page);
        } else if code == KeyCode::PageUp {
            self.scroll_help_up_by(page);
        } else {
            self.screen = self.screen_before_confirm;
        }
    }

    /// A key in the search: edits the query, commits it, or gives it up. A
    /// letter with Control held is ignored.
    fn handle_search_key(&mut self, code: KeyCode, ctrl: bool)
        requires
            old(self)@.has_list(),
        ensures
            final(self)@ == old(self)@.search_key(code, ctrl),
    {
        match code {
            KeyCode::Esc => self.cancel_search(),
            KeyCode::Enter => self.commit_search(),
            KeyCode::Backspace => {
                let _ = self.search.query.pop();
                self.update_search();
            },
            KeyCode::Char(c) => {
                if !ctrl {
                    self.search.query.push(c);
                    self.update_search();
                }
            },
            _ => {},
        }
    }

    /// A key in the go-to-task overlay: edits the filter, moves the highlight,
    /// goes to the highlighted card, or closes the overlay.
    fn handle_picker_key(&mut self, code: KeyCode, ctrl: bool)
        requires
            old(self)@.has_list(),
        ensures
            final(self)@ == old(self)@.picker_key(code, ctrl),
    {
        if code == KeyCode::Esc {
            self.screen = self.screen_before_confirm;
        } else if code == KeyCode::Enter {
            self.picker_commit();
        } else if code == KeyCode::Up || (code == KeyCode::Char('p') && ctrl) {
            self.picker_move(1, false);
        } else if code == KeyCode::Down || (code == KeyCode::Char('n') && ctrl) {
            self.picker_move(1, true);
        } else if code == KeyCode::Char('d') && ctrl {
            let half: usize = self.picker_half_page();
            self.picker_move(half, true);
        } else if code == KeyCode::Char('u') && ctrl {
            let half: usize = self.picker_half_page();
            self.picker_move(half, false);
        } else if code == KeyCode::Backspace {
            let _ = self.picker.query.pop();
            self.picker.selection = 0;
        } else {
            match code {
                KeyCode::Char(c) => {
                    if !ctrl {
                        self.picker.query.push(c);
                        self.picker.selection = 0;
                    }
                },
                _ => {},
            }
        }
    }

    /// A key that scrolls the card. Returns whether it was one.
    fn handle_checklist_scroll_key(&mut self, code: KeyCode, ctrl: bool) -> (r: bool)
        ensures
            match old(self)@.scroll_key(code, ctrl) {
                Some(after) => r && final(self)@ == after,
                None => !r && final(self)@ == old(self)@,
            },
    {
        let half: u16 = Self::half_of_height(self.card_viewport_height);
        let page: u16 = Self::page_of_height(self.card_viewport_height);
        if ctrl && code == KeyCode::Char('e') {
            self.scroll_card_down_by(1);
            true
        } else if ctrl && code == KeyCode::Char('y') {
            self.scroll_card_up_by(1);
            true
        } else if ctrl && code == KeyCode::Char('d') {
            self.scroll_card_down_by(half);
            true
        } else if ctrl && code == KeyCode::Char('u') {
            self.scroll_card_up_by(half);
            true
        } else if code == KeyCode::PageDown {
            self.scroll_card_down_by(page);
            true
        } else if code == KeyCode::PageUp {
            self.scroll_card_up_by(page);
            true
        } else {
            false
        }
    }

    /// Leaves at once, or asks about a reset first when every task is done.
    fn leave(&mut self)
        ensures
            final(self)@ == old(self)@.leaving(),
    {
        if document_has_tasks(&self.document.lists) && all_lists_done(&self.document.lists) {
            self.screen_before_confirm = self.screen;
            self.screen = Screen::ConfirmQuitReset;
        } else {
            self.should_quit = true;
        }
    }

    /// Opens the help overlay, at its top.
    fn open_help(&mut self)
        ensures
            final(self)@ == old(self)@.helped(),
    {
        self.screen_before_confirm = self.screen;
        self.help.scroll = 0;
        self.screen = Screen::Help;
    }

    /// A key that means the same on every content screen. Returns whether it
    /// was one.
    fn handle_global_key(&mut self, code: KeyCode, ctrl: bool) -> (r: bool)
        requires
            old(self)@.ready(),
        ensures
            match old(self)@.global_key(code, ctrl) {
                Some(after) => r && final(self)@ == after,
                None => !r && final(self)@ == old(self)@,
            },
    {
        match code {
            KeyCode::Char('?') => self.open_help(),
            KeyCode::Char('T') => self.open_list_picker(),
            KeyCode::Char('q') => self.leave(),
            KeyCode::Esc => self.leave(),
            KeyCode::Char('e') => self.editor_requested = true,
            KeyCode::Char('R') => self.request_reset(),
            KeyCode::Char('u') => {
                if ctrl {
                    return false;
                }
                self.undo();
            },
            KeyCode::Char('r') => {
                if !ctrl {
                    return false;
                }
                self.redo();
            },
            KeyCode::Tab => self.jump_to_next_incomplete_task(),
            KeyCode::Char('L') => self.jump_to_next_incomplete_list(),
            KeyCode::Char('H') => self.jump_to_prev_incomplete_list(),
            KeyCode::Char(c) => {
                if '1' <= c && c <= '9' {
                    let index: usize = (c as u8 - 49) as usize;
                    self.jump_to_list(index);
                } else {
                    return false;
                }
            },
            _ => {
                return false;
            },
        }
        true
    }

    /// The first `g` of `gg` waits for the second, which goes to the first
    /// card.
    fn press_g(&mut self, pending_g: bool)
        ensures
            final(self)@ == old(self)@.g_pressed(pending_g),
    {
        if pending_g {
            self.go_to_first_item();
        } else {
            self.pending_g = true;
        }
    }

    /// A key on the checklist.
    fn handle_checklist_key(&mut self, code: KeyCode, pending_g: bool)
        requires
            old(self)@.ready(),
        ensures
            final(self)@ == old(self)@.checklist_key(code, pending_g),
    {
        match code {
            KeyCode::Char('h') | KeyCode::Left | KeyCode::Char('k') | KeyCode::Up => {
                self.navigate_backward()
            },
            KeyCode::Char('l') | KeyCode::Right | KeyCode::Char('j') | KeyCode::Down => {
                self.navigate_forward()
            },
            KeyCode::Char('g') => self.press_g(pending_g),
            KeyCode::Char('G') => self.go_to_last_item(),
            KeyCode::Char('}') => self.jump_sub_section(true),
            KeyCode::Char('{') => self.jump_sub_section(false),
            KeyCode::Char('/') => self.start_search(),
            KeyCode::Char('n') => self.search_cycle(true),
            KeyCode::Char('N') => self.search_cycle(false),
            KeyCode::Char(' ') | KeyCode::Enter => self.toggle_current(),
            KeyCode::Char('s') => self.start_current(),
            KeyCode::Char('y') => self.copy_current_code(),
            KeyCode::Char('o') => self.open_current_link(),
            _ => {},
        }
    }

    /// From a finished list to the next one with a task not done; with none,
    /// to the summary of the whole document.
    fn advance_to_next_incomplete_list(&mut self)
        requires
            old(self)@.has_list(),
        ensures
            final(self)@ == old(self)@.advanced_list(),
    {
        assert(self.document.lists.len() <= usize::MAX);
        match incomplete_list_from(&self.document.lists, self.current_list_index + 1) {
            Some(index) => self.jump_to_list(index),
            None => self.screen = Screen::AllComplete,
        }
    }

    /// A key on the summary of a finished list.
    fn handle_list_complete_key(&mut self, code: KeyCode)
        requires
            old(self)@.has_list(),
        ensures
            final(self)@ == old(self)@.list_complete_key(code),
    {
        match code {
            KeyCode::Char('l') | KeyCode::Right | KeyCode::Char('j') | KeyCode::Down
            | KeyCode::Enter => self.advance_to_next_incomplete_list(),
            KeyCode::Char('h') | KeyCode::Left | KeyCode::Char('k') | KeyCode::Up => {
                self.screen = Screen::Checklist
            },
            _ => {},
        }
    }

    /// Goes back to the last card of the last list.
    fn return_to_last_list(&mut self)
        requires
            old(self)@.has_list(),
        ensures
            final(self)@ == old(self)@.at_last_list(),
    {
        let last: usize = self.document.lists.len() - 1;
        let item: usize = self.document.lists[last].items.len().saturating_sub(1);
        self.show(last, item);
        self.maybe_auto_copy();
    }

    /// A key on the summary of a finished document.
    fn handle_all_complete_key(&mut self, code: KeyCode)
        requires
            old(self)@.has_list(),
        ensures
            final(self)@ == old(self)@.all_complete_key(code),
    {
        match code {
            KeyCode::Char('h') | KeyCode::Left | KeyCode::Char('k') | KeyCode::Up => {
                self.return_to_last_list()
            },
            _ => {},
        }
    }
}

} // verus!
