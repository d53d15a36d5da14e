//! The application: changing tasks, writing the changes back, undoing and
//! redoing them, and reloading a file that changed on disk.
//!
//! A change is made in memory first and noted as waiting to be written. The
//! event loop then looks at the file, asks `resolve_write` what to do, does
//! it, and reports back by `finish_write` or `finish_conflict`.

use vstd::prelude::*;

use crate::app_spec::{DiskModel, ParsedModel};
use crate::app_state::{
    AfterWrite, AppModel, AppState, CopyReport, PendingSync, PendingWrite, Screen,
    UNDO_HISTORY_CAP,
};
use crate::document::{
    all_lists_done, apply_snapshot_to, clear_tasks, document_has_progress, list_all_done,
    places_of, set_item_kind, snapshot_of, CardFilter,
};
use crate::model::{Document, Item, ItemKind, List, ListModel, StateSnapshot, TaskState};
use crate::text::{
    copy_of, decimal_text, hash_text, join2, join3, same_hash, same_text, ContentHash,
};
use crate::writer::document_contents;
use crate::{app_spec, app_state, document, model, text};
use crate::app::plural_of;

verus! {

/// What reading and understanding a file came to.
#[derive(Debug)]
pub enum Parsed {
    Read(Document),
    Failed(String),
}

/// A file as it was found on disk.
#[derive(Debug)]
pub struct DiskState {
    pub mtime: u128,
    pub size: u64,
    /// The hash of its content.
    pub hash: Option<ContentHash>,
    pub parsed: Parsed,
}

impl View for DiskState {
    type V = DiskModel;

    open spec fn view(&self) -> DiskModel {
        DiskModel {
            mtime: self.mtime,
            size: self.size,
            hash: self.hash,
            parsed: match self.parsed {
                Parsed::Read(document) => ParsedModel::Read(document@),
                Parsed::Failed(reason) => ParsedModel::Failed(reason@),
            },
        }
    }
}

/// The file as found on disk, if it could be looked up.
pub open spec fn disk_model(disk: Option<DiskState>) -> Option<DiskModel> {
    match disk {
        Some(d) => Some(d@),
        None => None,
    }
}

/// What looking up a file gave.
#[derive(Clone, Copy, Debug, PartialEq, Eq, Structural)]
pub enum FileStat {
    Found { mtime: u128, size: u64 },
    /// The file does not exist.
    Missing,
    /// The file cannot be looked up, for another reason.
    Unreadable,
}

/// A reload that is due.
#[derive(Clone, Copy, Debug, PartialEq, Eq, Structural)]
pub struct ReloadRequest {
    pub mtime: u128,
    pub size: u64,
    pub was_deleted: bool,
}

/// What to do with a change that waits to be written.
#[derive(Debug, PartialEq, Eq)]
pub enum WriteDecision {
    /// No change waits.
    Nothing,
    /// Write this content to the file.
    Write(String),
    /// The file changed meanwhile: read it again.
    Conflict,
}

/// Lemma: a list counts towards the rank of every later place.
proof fn lemma_rank_grows(lists: Seq<ListModel>, title: Seq<char>, i: int, j: int)
    requires
        0 <= i < j <= lists.len(),
    ensures
        app_spec::title_rank(lists, j, title) >= app_spec::title_rank(lists, i, title) + (
        if lists[i].title@ == title {
            1int
        } else {
            0int
        }),
    decreases j - i,
{
    if j > i + 1 {
        lemma_rank_grows(lists, title, i, j - 1);
    }
}

/// Lemma: a list of the given title and rank is the one that `ranked_list`
/// names.
pub proof fn lemma_ranked_list_is(lists: Seq<ListModel>, title: Seq<char>, rank: nat, i: int)
    requires
        app_spec::is_ranked_list(lists, title, rank, i),
    ensures
        app_spec::ranked_list(lists, title, rank) == i,
{
    let c = choose|k: int| app_spec::is_ranked_list(lists, title, rank, k);
    assert(app_spec::is_ranked_list(lists, title, rank, c));
    if c < i {
        lemma_rank_grows(lists, title, c, i);
    } else if i < c {
        lemma_rank_grows(lists, title, i, c);
    }
}

/// The number of lists before number `index` that have the title.
fn rank_of(lists: &Vec<List>, index: usize, title: &str) -> (r: usize)
    requires
        index <= lists@.len(),
    ensures
        r == app_spec::title_rank(model::list_models(lists@), index as int, title@),
{
    let ghost models = model::list_models(lists@);
    let mut rank: usize = 0;
    let mut i: usize = 0;
    while i < index
        invariant
            models == model::list_models(lists@),
            i <= index <= lists@.len(),
            rank <= i,
            rank == app_spec::title_rank(models, i as int, title@),
        decreases index - i,
    {
        if same_text(lists[i].title.as_str(), title) {
            rank += 1;
        }
        i += 1;
    }
    rank
}

/// The list of the given title before which `rank` lists of that title come;
/// the first list if there is none.
fn find_ranked(lists: &Vec<List>, title: &str, rank: usize) -> (r: usize)
    requires
        lists@.len() > 0,
    ensures
        r == app_spec::ranked_list(model::list_models(lists@), title@, rank as nat),
        r < lists@.len(),
{
    let ghost models = model::list_models(lists@);
    let mut seen: usize = 0;
    let mut i: usize = 0;
    while i < lists.len()
        invariant
            models == model::list_models(lists@),
            i <= lists@.len(),
            seen <= i,
            seen == app_spec::title_rank(models, i as int, title@),
            forall|k: int|
                0 <= k < i ==> !app_spec::is_ranked_list(models, title@, rank as nat, k),
        decreases lists.len() - i,
    {
        if same_text(lists[i].title.as_str(), title) {
            if seen == rank {
                proof {
                    assert(app_spec::is_ranked_list(models, title@, rank as nat, i as int));
                    lemma_ranked_list_is(models, title@, rank as nat, i as int);
                }
                return i;
            }
            seen += 1;
        }
        i += 1;
    }
    proof {
            assert(forall|k: int| !app_spec::is_ranked_list(models, title@, rank as nat, k));
    }
    0
}

/// The first card of the list that comes from the line; the first card of all
/// if there is none.
fn item_on_line(list: &List, line: usize) -> (r: usize)
    ensures
        r == match text::first_from(list@.items, document::on_line(line), 0) {
            Some(i) => i,
            None => 0,
        },
{
    let ghost p = document::on_line(line);
    let mut i: usize = 0;
    while i < list.items.len()
        invariant
            p == document::on_line(line),
            i <= list.items@.len(),
            forall|j: int| 0 <= j < i ==> !p(#[trigger] list.items@[j]),
        decreases list.items.len() - i,
    {
        if list.items[i].line_number == line {
            proof {
                text::lemma_first_from_is(list.items@, p, 0, i as int);
            }
            return i;
        }
        i += 1;
    }
    proof {
        text::lemma_first_from_none(list.items@, p, 0);
    }
    0
}

/// The state that toggling *done* leads to.
fn toggle_done(state: TaskState) -> (r: TaskState)
    ensures
        r == app_spec::toggled_done(state),
{
    if state == TaskState::Done {
        TaskState::NotStarted
    } else {
        TaskState::Done
    }
}

/// "Undo" or "Redo".
fn verb_of(redo: bool) -> (r: &'static str)
    ensures
        r@ == AppModel::history_verb(redo),
{
    if redo {
        "Redo"
    } else {
        "Undo"
    }
}

/// What a change of the card to `state` is called.
fn change_description(item: &Item, state: TaskState) -> (r: String)
    ensures
        r@ == AppModel::change_of(*item, state),
{
    let name = item.name();
    let verb: &str = match state {
        TaskState::Done => "Check",
        TaskState::Started => "Start",
        TaskState::NotStarted => "Uncheck",
    };
    join3(verb, " \"", name.as_str()).concat("\"")
}

impl AppState {
    // ----- Changing tasks ----------------------------------------------

    /// Brings the task at a place into a state, to be written.
    fn set_task(&mut self, list: usize, item: usize, state: TaskState, then_do: AfterWrite)
        requires
            list < old(self)@.document.lists.len(),
            item < old(self)@.document.lists[list as int].items.len(),
        ensures
            final(self)@ == old(self)@.task_set(list, item, state, then_do@),
    {
        let pre_state = snapshot_of(&self.document.lists);
        let change_desc = change_description(&self.document.lists[list].items[item], state);
        set_item_kind(&mut self.document.lists, list, item, ItemKind::Checkbox(state));
        self.pending_write = Some(
            PendingWrite {
                pre_state,
                fail_msg: copy_of("Write failed — change not saved to disk"),
                change_desc,
                then_do,
            },
        );
    }

    /// Brings the task under the cursor into a state, to be written; refuses
    /// when the file is gone.
    fn set_current_state(&mut self, state: TaskState, then_do: AfterWrite)
        requires
            old(self)@.ready(),
            old(self)@.current_item() is Some,
        ensures
            final(self)@ == old(self)@.current_set(state, then_do@),
    {
        if self.blocked_by_deletion() {
            return;
        }
        self.set_task(self.current_list_index, self.current_item_index, state, then_do);
    }

    /// Toggles the task under the cursor. A note is passed over instead, and
    /// with nothing after it the user is told.
    pub fn toggle_current(&mut self)
        requires
            old(self)@.ready(),
        ensures
            final(self)@ == old(self)@.toggled(),
    {
        let kind = match self.current_item() {
            Some(item) => item.kind,
            None => {
                return;
            },
        };
        match kind {
            ItemKind::DisplayOnly => {
                let last: usize = self.current_list().items.len().saturating_sub(1);
                let count: usize = self.document.lists.len();
                if self.current_item_index < last || self.current_list_index + 1 < count {
                    self.navigate_forward();
                } else {
                    self.set_error(
                        copy_of("Nothing to toggle: this is a note, and it's the last card"),
                    );
                }
            },
            ItemKind::Checkbox(state) => {
                let new_state = toggle_done(state);
                self.set_current_state(
                    new_state,
                    AfterWrite::Toggle { done: new_state == TaskState::Done },
                );
            },
        }
    }

    /// Toggles a task of the document, the cursor left where it is. Anything
    /// but a task is ignored.
    pub fn toggle_item(&mut self, list_index: usize, item_index: usize)
        requires
            old(self)@.settled(),
        ensures
            final(self)@ == old(self)@.item_toggled(list_index, item_index),
    {
        if self.blocked_by_deletion() {
            return;
        }
        if list_index >= self.document.lists.len() || item_index
            >= self.document.lists[list_index].items.len() {
            return;
        }
        match self.document.lists[list_index].items[item_index].kind {
            ItemKind::DisplayOnly => {},
            ItemKind::Checkbox(state) => {
                let new_state = toggle_done(state);
                self.set_task(
                    list_index,
                    item_index,
                    new_state,
                    AfterWrite::Overview { done: new_state == TaskState::Done },
                );
            },
        }
    }

    /// Starts the task under the cursor, or sets it back. A note cannot be
    /// started, and the user is told.
    pub fn start_current(&mut self)
        requires
            old(self)@.ready(),
        ensures
            final(self)@ == old(self)@.started(),
    {
        let kind = match self.current_item() {
            Some(item) => item.kind,
            None => {
                return;
            },
        };
        match kind {
            ItemKind::DisplayOnly => {
                self.set_error(copy_of("Nothing to start: this card is a note, not a task"));
            },
            ItemKind::Checkbox(state) => {
                let new_state = if state == TaskState::Started {
                    TaskState::NotStarted
                } else {
                    TaskState::Started
                };
                self.set_current_state(new_state, AfterWrite::Start);
            },
        }
    }

    /// Asks whether to reset all tasks, where any is started or done.
    pub fn request_reset(&mut self)
        ensures
            final(self)@ == old(self)@.reset_requested(),
    {
        if document_has_progress(&self.document.lists) {
            self.screen_before_confirm = self.screen;
            self.screen = Screen::ConfirmReset;
        } else {
            self.set_error(copy_of("Nothing to reset: no tasks are done"));
        }
    }

    /// Resets all tasks, to be written; refuses when the file is gone.
    pub fn reset_all(&mut self)
        requires
            old(self)@.settled(),
        ensures
            final(self)@ == old(self)@.all_reset(),
    {
        if self.blocked_by_deletion() {
            return;
        }
        let pre_state = snapshot_of(&self.document.lists);
        clear_tasks(&mut self.document.lists);
        self.pending_write = Some(
            PendingWrite {
                pre_state,
                fail_msg: copy_of("Write failed — reset not saved to disk"),
                change_desc: copy_of("Reset all tasks to not done"),
                then_do: AfterWrite::Reset,
            },
        );
    }

    // ----- Undo and redo -----------------------------------------------

    /// The state of every task.
    pub fn state_snapshot(&self) -> (r: StateSnapshot)
        ensures
            r@ == self@.states(),
    {
        snapshot_of(&self.document.lists)
    }

    /// Gives every task the state that the snapshot has for its line. Returns
    /// the line numbers of the tasks that changed.
    pub fn apply_snapshot(&mut self, snapshot: &StateSnapshot) -> (r: Vec<usize>)
        ensures
            final(self)@ == old(self)@.with_states(snapshot@),
            r@ == model::changes(old(self)@.document.lists, snapshot@),
    {
        apply_snapshot_to(&mut self.document.lists, snapshot)
    }

    /// Applies a snapshot of the history, to be written.
    fn apply_history(&mut self, redo: bool, snapshot: StateSnapshot)
        ensures
            final(self)@ == old(self)@.history_applied(redo, snapshot@),
    {
        let pre_state = self.state_snapshot();
        let changed = self.apply_snapshot(&snapshot);
        let verb = verb_of(redo);
        let count = decimal_text(changed.len() as u128);
        let change_desc = join3(verb, ": ", count.as_str()).concat(" item").concat(
            plural_of(changed.len()),
        );
        self.pending_write = Some(
            PendingWrite {
                pre_state,
                fail_msg: join2(verb, " failed — write error, change not saved"),
                change_desc,
                then_do: AfterWrite::History { redo, snapshot, changed },
            },
        );
    }

    /// Undoes the last change, to be written.
    pub fn undo(&mut self)
        requires
            old(self)@.settled(),
        ensures
            final(self)@ == old(self)@.undone(),
    {
        if self.blocked_by_deletion() {
            return;
        }
        match self.undo_stack.pop() {
            Some(snapshot) => {
                assert(self@.undo_stack =~= old(self)@.undo_stack.drop_last());
                self.apply_history(false, snapshot);
            },
            None => {
                self.set_error(copy_of("Nothing to undo"));
            },
        }
    }

    /// Redoes the last undone change, to be written.
    pub fn redo(&mut self)
        requires
            old(self)@.settled(),
        ensures
            final(self)@ == old(self)@.redone(),
    {
        if self.blocked_by_deletion() {
            return;
        }
        match self.redo_stack.pop() {
            Some(snapshot) => {
                assert(self@.redo_stack =~= old(self)@.redo_stack.drop_last());
                self.apply_history(true, snapshot);
            },
            None => {
                self.set_error(copy_of("Nothing to redo"));
            },
        }
    }

    /// Enters a change into the history.
    fn push_undo_point(&mut self, pre_state: StateSnapshot)
        ensures
            final(self)@ == old(self)@.recorded(pre_state@),
    {
        self.undo_stack.push(pre_state);
        if self.undo_stack.len() > UNDO_HISTORY_CAP {
            self.undo_stack.remove(0);
        }
        self.redo_stack.clear();
    }

    /// Where the first card from a line is.
    fn locate_line(&self, line: usize) -> (r: Option<(usize, usize)>)
        ensures
            r == self@.line_place(line),
    {
        let found = places_of(&self.document.lists, &CardFilter::Line(line));
        if found.len() > 0 {
            Some(found[0])
        } else {
            None
        }
    }

    /// Goes to the first card from a line, if there is one.
    fn focus_line(&mut self, line: usize)
        requires
            old(self)@.has_list(),
        ensures
            final(self)@ == old(self)@.line_focused(line),
            final(self)@.has_list(),
    {
        match self.locate_line(line) {
            Some((list, item)) => self.focus_item(list, item),
            None => {},
        }
    }

    /// What undoing or redoing did to the card under the cursor.
    fn restored_text(&self) -> (r: &'static str)
        requires
            self@.has_list(),
        ensures
            r@ == self@.restored_as(),
    {
        match self.current_item() {
            Some(item) => match item.kind {
                ItemKind::Checkbox(TaskState::Done) => "marked done",
                ItemKind::Checkbox(TaskState::Started) => "marked started",
                ItemKind::Checkbox(TaskState::NotStarted) => "marked not done",
                ItemKind::DisplayOnly => "restored",
            },
            None => "restored",
        }
    }

    /// Reports undoing or redoing that changed nothing.
    fn report_no_change(&mut self, redo: bool)
        ensures
            final(self)@ == old(self)@.no_change_reported(redo),
    {
        self.screen = Screen::Checklist;
        self.set_status(join2(verb_of(redo), ": no change"));
    }

    /// Shows and reports undoing or redoing that changed one task.
    fn report_one_change(&mut self, redo: bool, line: usize)
        requires
            old(self)@.has_list(),
        ensures
            final(self)@ == old(self)@.one_change_reported(redo, line),
    {
        self.screen = Screen::Checklist;
        self.focus_line(line);
        let what = self.restored_text();
        self.set_status(join3(verb_of(redo), ": ", what));
    }

    /// Reports undoing or redoing that changed several tasks.
    fn report_changes(&mut self, redo: bool, count: usize)
        ensures
            final(self)@ == old(self)@.changes_reported(redo, count as nat),
    {
        self.screen = Screen::Checklist;
        let number = decimal_text(count as u128);
        self.set_status(join3(verb_of(redo), ": restored ", number.as_str()).concat(" tasks"));
    }

    /// Shows and reports the effect of undoing or redoing.
    fn finish_history_apply(&mut self, redo: bool, changed: &Vec<usize>)
        requires
            old(self)@.has_list(),
        ensures
            final(self)@ == old(self)@.history_reported(redo, changed@),
    {
        if changed.len() == 0 {
            self.report_no_change(redo);
        } else if changed.len() == 1 {
            self.report_one_change(redo, changed[0]);
        } else {
            self.report_changes(redo, changed.len());
        }
    }

    // ----- Writing -----------------------------------------------------

    /// Whether the file on disk is not what was last seen of it. `disk_hash`
    /// is the hash of its content, if it can be read; a file that cannot be
    /// read does not count as changed.
    pub fn disk_content_diverged(&self, disk_hash: Option<ContentHash>) -> (r: bool)
        ensures
            r == self@.diverged(disk_hash),
    {
        match disk_hash {
            Some(hash) => match self.file_content_hash {
                Some(seen) => !same_hash(&hash, &seen),
                None => true,
            },
            None => false,
        }
    }

    /// What to do with the change that waits to be written, given the hash of
    /// what the file holds now.
    pub fn resolve_write(&self, disk_hash: Option<ContentHash>) -> (r: WriteDecision)
        ensures
            r is Nothing == self@.settled(),
            r is Conflict == (!self@.settled() && self@.diverged(disk_hash)),
            r matches WriteDecision::Write(content) ==> content@ == self@.document.contents(),
    {
        match &self.pending_write {
            None => WriteDecision::Nothing,
            Some(_) => if self.disk_content_diverged(disk_hash) {
                WriteDecision::Conflict
            } else {
                WriteDecision::Write(document_contents(&self.document))
            },
        }
    }

    /// After a task was completed: the summary of a finished list or document,
    /// or else the next card.
    fn maybe_transition_screen(&mut self)
        requires
            old(self)@.has_list(),
        ensures
            final(self)@ == old(self)@.advanced(),
    {
        if list_all_done(self.current_list()) {
            self.screen = if all_lists_done(&self.document.lists) {
                Screen::AllComplete
            } else {
                Screen::ListComplete
            };
        } else {
            self.navigate_next();
        }
    }

    /// Whether the summary that is shown still holds.
    fn summary_still_holds(&self) -> (r: bool)
        requires
            self@.has_list(),
        ensures
            r == self@.summary_holds(),
    {
        match self.screen {
            Screen::AllComplete => all_lists_done(&self.document.lists),
            Screen::ListComplete => list_all_done(self.current_list()),
            _ => true,
        }
    }

    /// Follows up toggling the current task.
    fn finish_toggle(&mut self, pre_state: StateSnapshot, done: bool)
        requires
            old(self)@.has_list(),
        ensures
            final(self)@ == old(self)@.after_toggle(pre_state@, done),
    {
        self.push_undo_point(pre_state);
        if done {
            self.maybe_transition_screen();
        } else {
            self.screen = Screen::Checklist;
        }
    }

    /// Follows up toggling a task of the overview.
    fn finish_overview(&mut self, pre_state: StateSnapshot, done: bool)
        requires
            old(self)@.has_list(),
        ensures
            final(self)@ == old(self)@.after_overview(pre_state@, done),
    {
        self.push_undo_point(pre_state);
        if !self.summary_still_holds() {
            self.screen = Screen::Checklist;
        }
        let msg: &str = if done {
            "Marked done"
        } else {
            "Marked not done"
        };
        self.set_status(copy_of(msg));
    }

    /// Follows up starting the current task.
    fn finish_start(&mut self, pre_state: StateSnapshot)
        ensures
            final(self)@ == old(self)@.after_start(pre_state@),
    {
        self.push_undo_point(pre_state);
        self.screen = Screen::Checklist;
    }

    /// Follows up resetting all tasks.
    fn finish_reset(&mut self, pre_state: StateSnapshot)
        ensures
            final(self)@ == old(self)@.after_reset(pre_state@),
    {
        self.push_undo_point(pre_state);
        self.screen = Screen::Checklist;
        self.set_status(copy_of("All tasks reset to not done"));
    }

    /// Adds a step to the history.
    fn push_step(&mut self, redo: bool, pre_state: StateSnapshot)
        ensures
            final(self)@ == old(self)@.with_step(redo, pre_state@),
    {
        if redo {
            self.undo_stack.push(pre_state);
        } else {
            self.redo_stack.push(pre_state);
        }
    }

    /// Follows up undoing or redoing.
    fn finish_history(&mut self, pre_state: StateSnapshot, redo: bool, changed: &Vec<usize>)
        requires
            old(self)@.has_list(),
        ensures
            final(self)@ == old(self)@.after_history(pre_state@, redo, changed@),
    {
        self.finish_history_apply(redo, changed);
        self.push_step(redo, pre_state);
    }

    /// Does what is left to do once a change is written.
    fn follow_up(&mut self, pre_state: StateSnapshot, then_do: AfterWrite)
        requires
            old(self)@.has_list(),
        ensures
            final(self)@ == old(self)@.followed_up(pre_state@, then_do@),
    {
        match then_do {
            AfterWrite::Toggle { done } => self.finish_toggle(pre_state, done),
            AfterWrite::Start => self.finish_start(pre_state),
            AfterWrite::Overview { done } => self.finish_overview(pre_state, done),
            AfterWrite::Reset => self.finish_reset(pre_state),
            AfterWrite::History { redo, changed, .. } => {
                self.finish_history(pre_state, redo, &changed)
            },
        }
    }

    /// Puts a history step that came to nothing back to be taken again.
    fn keep_history(&mut self, then_do: AfterWrite)
        ensures
            final(self)@ == old(self)@.history_kept(then_do@),
    {
        match then_do {
            AfterWrite::History { redo, snapshot, .. } => self.push_step(!redo, snapshot),
            _ => {},
        }
    }

    /// Notes what was written.
    fn note_written(&mut self, stat: Option<(u128, u64)>, change_desc: String)
        ensures
            final(self)@ == old(self)@.noted_written(stat, change_desc@),
    {
        let content = document_contents(&self.document);
        let hash = hash_text(content.as_str());
        let previous = self.file_content_hash;
        let (mtime, size): (Option<u128>, Option<u64>) = match stat {
            Some((m, s)) => (Some(m), Some(s)),
            None => (None, None),
        };
        self.file_mtime = mtime;
        self.file_size = size;
        self.file_content_hash = Some(hash);
        self.last_update_at = Some(self.now);
        self.git_sync.pending = Some(
            PendingSync {
                content,
                content_hash: hash,
                previous_content_hash: previous,
                description: change_desc,
            },
        );
        self.pending_write = None;
    }

    /// Notes that the change was written: `stat` is the file's modification
    /// time and size afterwards, where they could be read.
    fn commit_write(&mut self, stat: Option<(u128, u64)>)
        requires
            old(self)@.has_list(),
        ensures
            final(self)@ == old(self)@.written(stat),
    {
        let ghost before = self@;
        match self.pending_write.take() {
            None => {},
            Some(write) => {
                let ghost what = write@;
                self.note_written(stat, write.change_desc);
                assert(self@ == before.noted_written(stat, what.change_desc));
                self.follow_up(write.pre_state, write.then_do);
            },
        }
    }

    /// Takes a change back.
    fn take_back(&mut self, pre_state: &StateSnapshot)
        ensures
            final(self)@ == old(self)@.taken_back(pre_state@),
    {
        self.pending_write = None;
        let _ = self.apply_snapshot(pre_state);
    }

    /// Takes back a change that could not be written, and says so.
    fn abandon_write(&mut self)
        ensures
            final(self)@ == old(self)@.not_written(),
    {
        let ghost before = self@;
        match self.pending_write.take() {
            None => {},
            Some(write) => {
                self.take_back(&write.pre_state);
                assert(self@ == before.taken_back(write.pre_state@));
                self.set_error(write.fail_msg);
                self.keep_history(write.then_do);
            },
        }
    }

    /// Loads what the file holds now, if it could be looked up.
    fn force_reload(&mut self, disk: Option<DiskState>, then_do: AfterWrite)
        requires
            old(self)@.has_list(),
        ensures
            final(self)@ == old(self)@.reread(disk_model(disk), then_do@),
    {
        match disk {
            Some(d) => {
                let was_deleted = self.file_deleted;
                if !self.reload_from_disk(d, was_deleted) {
                    self.keep_history(then_do);
                }
            },
            None => self.keep_history(then_do),
        }
    }

    /// Reports how writing went: on success with the file's modification time
    /// and size afterwards, where they could be read. A change that could not
    /// be written is taken back.
    pub fn finish_write(&mut self, written: bool, stat: Option<(u128, u64)>)
        requires
            old(self)@.has_list(),
        ensures
            final(self)@ == if written {
                old(self)@.written(stat)
            } else {
                old(self)@.not_written()
            },
    {
        if written {
            self.commit_write(stat);
        } else {
            self.abandon_write();
        }
    }

    /// Takes back a change because the file had changed, and loads what the
    /// file holds now, where it could be looked up.
    pub fn finish_conflict(&mut self, disk: Option<DiskState>)
        requires
            old(self)@.has_list(),
        ensures
            final(self)@ == old(self)@.conflicted(disk_model(disk)),
    {
        let ghost before = self@;
        match self.pending_write.take() {
            None => {},
            Some(write) => {
                self.take_back(&write.pre_state);
                assert(self@ == before.taken_back(write.pre_state@));
                self.force_reload(disk, write.then_do);
                self.set_error(
                    copy_of("File changed on disk — reloaded; change not saved, please retry"),
                );
            },
        }
    }

    // ----- Reloading ---------------------------------------------------

    /// Looks whether the file changed since it was last seen: whether its
    /// modification time or size differ, or it is back after it was gone.
    /// Returns the reload that is due, if any.
    pub fn reload_if_changed(&mut self, stat: FileStat) -> (r: Option<ReloadRequest>)
        ensures
            match stat {
                FileStat::Missing => r is None && final(self)@ == old(self)@.gone(),
                FileStat::Unreadable => r is None && final(self)@ == old(self)@,
                FileStat::Found { mtime, size } => {
                    &&& final(self)@ == (AppModel { file_deleted: false, ..old(self)@ })
                    &&& r == if old(self)@.changed_on_disk(mtime, size) {
                        Some(
                            ReloadRequest { mtime, size, was_deleted: old(self)@.file_deleted },
                        )
                    } else {
                        None
                    }
                },
            },
    {
        match stat {
            FileStat::Missing => {
                if !self.file_deleted {
                    self.file_deleted = true;
                    self.set_error(copy_of("File deleted — changes cannot be saved"));
                }
                None
            },
            FileStat::Unreadable => None,
            FileStat::Found { mtime, size } => {
                let was_deleted = self.file_deleted;
                self.file_deleted = false;
                let same_time = match self.file_mtime {
                    Some(seen) => seen == mtime,
                    None => false,
                };
                let same_size = match self.file_size {
                    Some(seen) => seen == size,
                    None => false,
                };
                if !was_deleted && same_time && same_size {
                    None
                } else {
                    Some(ReloadRequest { mtime, size, was_deleted })
                }
            },
        }
    }

    /// Where the cursor goes in a new version of the document.
    fn remap_position(&self, new_document: &Document) -> (r: (usize, usize))
        requires
            self@.has_list(),
            new_document.lists@.len() > 0,
        ensures
            r == self@.remapped(new_document@),
            r.0 < new_document.lists@.len(),
    {
        let title = self.current_list().title.as_str();
        let rank: usize = rank_of(&self.document.lists, self.current_list_index, title);
        let list: usize = find_ranked(&new_document.lists, title, rank);
        let item: usize = match self.current_item() {
            Some(card) => item_on_line(&new_document.lists[list], card.line_number),
            None => 0,
        };
        (list, item)
    }

    /// Notes the file's modification time and size.
    fn note_disk(&mut self, mtime: u128, size: u64)
        ensures
            final(self)@ == old(self)@.noted_disk(mtime, size),
    {
        self.file_deleted = false;
        self.file_mtime = Some(mtime);
        self.file_size = Some(size);
    }

    /// Takes over a new version of the document.
    #[verifier::rlimit(30)]
    fn adopt(&mut self, new_document: Document, hash: Option<ContentHash>, was_deleted: bool)
        requires
            old(self)@.has_list(),
            new_document.lists@.len() > 0,
        ensures
            final(self)@ == old(self)@.adopted(new_document@, hash, was_deleted),
    {
        let (list, item) = self.remap_position(&new_document);
        self.document = new_document;
        self.file_content_hash = hash;
        self.last_update_at = Some(self.now);
        self.undo_stack.clear();
        self.redo_stack.clear();
        self.show(list, item);
        self.auto_copy_reporting(CopyReport::Never);
        let msg: &str = if was_deleted {
            "File restored — reloaded"
        } else {
            "Reloaded: file changed on disk"
        };
        self.set_status(copy_of(msg));
    }

    /// Takes over the file as found on disk, the cursor kept on the same card
    /// where possible. A file that could not be read, or has no checklist, is
    /// not taken over, and does not count as seen. Returns whether it was
    /// taken over.
    pub fn reload_from_disk(&mut self, disk: DiskState, was_deleted: bool) -> (r: bool)
        requires
            old(self)@.has_list(),
        ensures
            final(self)@ == old(self)@.reloaded(disk@, was_deleted),
            r == disk@.adoptable(),
    {
        self.note_disk(disk.mtime, disk.size);
        match disk.parsed {
            Parsed::Failed(reason) => {
                self.set_error(copy_of("Reload failed: ").concat(reason.as_str()));
                false
            },
            Parsed::Read(new_document) => {
                if new_document.lists.len() == 0 {
                    self.set_error(copy_of("Reload skipped: file has no checklist items"));
                    return false;
                }
                self.adopt(new_document, disk.hash, was_deleted);
                true
            },
        }
    }

    /// Queues a change made by an outside editor, which was loaded already, for
    /// git-sync.
    pub fn request_external_edit_sync(&mut self, editor: &str)
        ensures
            final(self)@ == (AppModel {
                sync_pending: Some(
                    app_state::SyncModel {
                        content: old(self)@.document.contents(),
                        content_hash: text::text_hash(old(self)@.document.contents()),
                        previous_content_hash: old(self)@.file_content_hash,
                        description: "Edited in "@ + editor@,
                    },
                ),
                ..old(self)@
            }),
    {
        let content = document_contents(&self.document);
        let content_hash = hash_text(content.as_str());
        self.git_sync.pending = Some(
            PendingSync {
                content,
                content_hash,
                previous_content_hash: self.file_content_hash,
                description: join2("Edited in ", editor),
            },
        );
    }
}

} // verus!
