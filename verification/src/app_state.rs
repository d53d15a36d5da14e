//! The state of the application, and its mathematical model.

use vstd::prelude::*;

use crate::input::Rect;
use crate::model::{Document, DocumentModel, StateSnapshot, TaskState};
use crate::text::ContentHash;

verus! {

/// How long, in milliseconds, a passing status message stays.
pub const STATUS_TIMEOUT_MS: u64 = 4_000;

/// The most changes that can be undone.
pub const UNDO_HISTORY_CAP: usize = 100;

/// What the application shows.
#[derive(Clone, Copy, Debug, PartialEq, Eq, Structural)]
pub enum Screen {
    Checklist,
    ListComplete,
    AllComplete,
    ConfirmReset,
    ConfirmQuitReset,
    Help,
    Search,
    ListPicker,
}

/// What a click on a row of the overview does.
#[derive(Clone, Copy, Debug, PartialEq, Eq, Structural)]
pub enum OverviewTarget {
    /// Go to the list.
    List(usize),
    /// Go to the card.
    Item(usize, usize),
    /// Toggle the task.
    Toggle(usize, usize),
}

/// The incremental search.
#[derive(Debug)]
pub struct SearchState {
    pub query: String,
    /// The cursor before the search began.
    pub origin: (usize, usize),
    /// The query that was last committed.
    pub last: Option<String>,
}

/// The go-to-task overlay.
#[derive(Debug)]
pub struct PickerState {
    pub query: String,
    pub selection: usize,
    pub viewport_height: u16,
}

/// The help overlay.
#[derive(Debug)]
pub struct HelpState {
    pub scroll: u16,
    pub max_scroll: u16,
    pub viewport_height: u16,
}

/// A change that git-sync is to commit.
#[derive(Debug)]
pub struct PendingSync {
    /// The whole content of the checklist file.
    pub content: String,
    /// The hash of `content`.
    pub content_hash: ContentHash,
    /// The hash of the version of the file that may be staged without getting
    /// lost: what it held before the change or, after an edit elsewhere, what
    /// the edit left in it. `None` where that is not known.
    pub previous_content_hash: Option<ContentHash>,
    /// What changed.
    pub description: String,
}

/// What the application hands to git-sync, and when that last succeeded.
#[derive(Debug)]
pub struct GitSyncState {
    pub pending: Option<PendingSync>,
    pub last_at: Option<u64>,
}

/// How the outcome of a copy is reported.
#[derive(Clone, Copy, Debug, PartialEq, Eq, Structural)]
pub enum CopyReport {
    /// Whatever it was: the user asked for the copy.
    Always,
    /// Only a success: the copy came with moving to the card.
    OnSuccess,
    /// Not at all: the copy came with a reload, which reports itself.
    Never,
}

/// A text to copy.
#[derive(Debug)]
pub struct CopyRequest {
    pub text: String,
    pub primary: bool,
    pub report: CopyReport,
}

/// What is left to do once a change is written to the file.
#[derive(Debug)]
pub enum AfterWrite {
    /// The current task was toggled.
    Toggle { done: bool },
    /// A task of the overview was toggled.
    Overview { done: bool },
    /// The current task was started or set back.
    Start,
    /// All tasks were reset.
    Reset,
    /// A step of the history was undone, or redone.
    History { redo: bool, snapshot: StateSnapshot, changed: Vec<usize> },
}

/// A change made in memory that the file does not have yet.
#[derive(Debug)]
pub struct PendingWrite {
    /// The states of the tasks before the change.
    pub pre_state: StateSnapshot,
    /// The message if writing fails.
    pub fail_msg: String,
    /// What changed, for git-sync.
    pub change_desc: String,
    pub then_do: AfterWrite,
}

/// The state of the application.
///
/// `now` is the time, in milliseconds since a fixed instant, that the event
/// loop last told; messages and tags are dated by it.
#[derive(Debug)]
pub struct AppState {
    pub document: Document,
    pub current_list_index: usize,
    pub current_item_index: usize,
    pub screen: Screen,
    pub status_message: Option<String>,
    pub status_expiry: Option<u64>,
    pub status_is_error: bool,
    pub should_quit: bool,
    pub file_mtime: Option<u128>,
    pub file_size: Option<u64>,
    pub file_content_hash: Option<ContentHash>,
    pub last_update_at: Option<u64>,
    pub git_sync: GitSyncState,
    pub card_scroll: u16,
    pub card_max_scroll: u16,
    pub card_viewport_height: u16,
    pub card_rect: Option<Rect>,
    pub code_regions: Vec<(Rect, String)>,
    pub overview_rows: Vec<(Rect, OverviewTarget)>,
    pub pending_g: bool,
    pub pending_open_link: bool,
    pub editor_requested: bool,
    pub screen_before_confirm: Screen,
    pub clipboard_primary: bool,
    pub auto_copy: bool,
    pub file_deleted: bool,
    pub search: SearchState,
    pub picker: PickerState,
    pub link_open_request: Option<String>,
    pub help: HelpState,
    pub undo_stack: Vec<StateSnapshot>,
    pub redo_stack: Vec<StateSnapshot>,
    pub copy_request: Option<CopyRequest>,
    pub pending_write: Option<PendingWrite>,
    pub now: u64,
}

// ----- Models ----------------------------------------------------------

/// A change for git-sync, as a mathematical value.
pub struct SyncModel {
    pub content: Seq<char>,
    pub content_hash: ContentHash,
    pub previous_content_hash: Option<ContentHash>,
    pub description: Seq<char>,
}

/// A text to copy, as a mathematical value.
pub struct CopyModel {
    pub text: Seq<char>,
    pub primary: bool,
    pub report: CopyReport,
}

/// What is left to do after a write, as a mathematical value.
pub enum AfterWriteModel {
    Toggle { done: bool },
    Overview { done: bool },
    Start,
    Reset,
    History { redo: bool, snapshot: Seq<(usize, TaskState)>, changed: Seq<usize> },
}

/// A change that is not written yet, as a mathematical value.
pub struct WriteModel {
    pub pre_state: Seq<(usize, TaskState)>,
    pub fail_msg: Seq<char>,
    pub change_desc: Seq<char>,
    pub then_do: AfterWriteModel,
}

/// The state of the application, as a mathematical value.
#[verifier::ext_equal]
pub struct AppModel {
    pub document: DocumentModel,
    pub current_list_index: usize,
    pub current_item_index: usize,
    pub screen: Screen,
    pub status_message: Option<Seq<char>>,
    pub status_expiry: Option<u64>,
    pub status_is_error: bool,
    pub should_quit: bool,
    pub file_mtime: Option<u128>,
    pub file_size: Option<u64>,
    pub file_content_hash: Option<ContentHash>,
    pub last_update_at: Option<u64>,
    pub sync_pending: Option<SyncModel>,
    pub sync_last_at: Option<u64>,
    pub card_scroll: u16,
    pub card_max_scroll: u16,
    pub card_viewport_height: u16,
    pub card_rect: Option<Rect>,
    pub code_regions: Seq<(Rect, String)>,
    pub overview_rows: Seq<(Rect, OverviewTarget)>,
    pub pending_g: bool,
    pub pending_open_link: bool,
    pub editor_requested: bool,
    pub screen_before_confirm: Screen,
    pub clipboard_primary: bool,
    pub auto_copy: bool,
    pub file_deleted: bool,
    pub search_query: Seq<char>,
    pub search_origin: (usize, usize),
    pub search_last: Option<Seq<char>>,
    pub picker_query: Seq<char>,
    pub picker_selection: usize,
    pub picker_viewport_height: u16,
    pub link_open_request: Option<Seq<char>>,
    pub help_scroll: u16,
    pub help_max_scroll: u16,
    pub help_viewport_height: u16,
    pub undo_stack: Seq<Seq<(usize, TaskState)>>,
    pub redo_stack: Seq<Seq<(usize, TaskState)>>,
    pub copy_request: Option<CopyModel>,
    pub pending_write: Option<WriteModel>,
    pub now: u64,
}

/// An optional string as an optional sequence of characters.
pub open spec fn text_model(o: Option<String>) -> Option<Seq<char>> {
    match o {
        Some(s) => Some(s@),
        None => None,
    }
}

/// A history as a sequence of snapshots.
pub open spec fn history_model(stack: Seq<StateSnapshot>) -> Seq<Seq<(usize, TaskState)>> {
    Seq::new(stack.len(), |i: int| stack[i]@)
}

impl View for PendingSync {
    type V = SyncModel;

    open spec fn view(&self) -> SyncModel {
        SyncModel {
            content: self.content@,
            content_hash: self.content_hash,
            previous_content_hash: self.previous_content_hash,
            description: self.description@,
        }
    }
}

impl View for CopyRequest {
    type V = CopyModel;

    open spec fn view(&self) -> CopyModel {
        CopyModel { text: self.text@, primary: self.primary, report: self.report }
    }
}

impl View for AfterWrite {
    type V = AfterWriteModel;

    open spec fn view(&self) -> AfterWriteModel {
        match self {
            AfterWrite::Toggle { done } => AfterWriteModel::Toggle { done: *done },
            AfterWrite::Overview { done } => AfterWriteModel::Overview { done: *done },
            AfterWrite::Start => AfterWriteModel::Start,
            AfterWrite::Reset => AfterWriteModel::Reset,
            AfterWrite::History { redo, snapshot, changed } => AfterWriteModel::History {
                redo: *redo,
                snapshot: snapshot@,
                changed: changed@,
            },
        }
    }
}

impl View for PendingWrite {
    type V = WriteModel;

    open spec fn view(&self) -> WriteModel {
        WriteModel {
            pre_state: self.pre_state@,
            fail_msg: self.fail_msg@,
            change_desc: self.change_desc@,
            then_do: self.then_do@,
        }
    }
}

/// An optional change for git-sync.
pub open spec fn sync_model(o: Option<PendingSync>) -> Option<SyncModel> {
    match o {
        Some(p) => Some(p@),
        None => None,
    }
}

/// An optional text to copy.
pub open spec fn copy_model(o: Option<CopyRequest>) -> Option<CopyModel> {
    match o {
        Some(c) => Some(c@),
        None => None,
    }
}

/// An optional change that is not written yet.
pub open spec fn write_model(o: Option<PendingWrite>) -> Option<WriteModel> {
    match o {
        Some(w) => Some(w@),
        None => None,
    }
}

impl View for AppState {
    type V = AppModel;

    open spec fn view(&self) -> AppModel {
        AppModel {
            document: self.document@,
            current_list_index: self.current_list_index,
            current_item_index: self.current_item_index,
            screen: self.screen,
            status_message: text_model(self.status_message),
            status_expiry: self.status_expiry,
            status_is_error: self.status_is_error,
            should_quit: self.should_quit,
            file_mtime: self.file_mtime,
            file_size: self.file_size,
            file_content_hash: self.file_content_hash,
            last_update_at: self.last_update_at,
            sync_pending: sync_model(self.git_sync.pending),
            sync_last_at: self.git_sync.last_at,
            card_scroll: self.card_scroll,
            card_max_scroll: self.card_max_scroll,
            card_viewport_height: self.card_viewport_height,
            card_rect: self.card_rect,
            code_regions: self.code_regions@,
            overview_rows: self.overview_rows@,
            pending_g: self.pending_g,
            pending_open_link: self.pending_open_link,
            editor_requested: self.editor_requested,
            screen_before_confirm: self.screen_before_confirm,
            clipboard_primary: self.clipboard_primary,
            auto_copy: self.auto_copy,
            file_deleted: self.file_deleted,
            search_query: self.search.query@,
            search_origin: self.search.origin,
            search_last: text_model(self.search.last),
            picker_query: self.picker.query@,
            picker_selection: self.picker.selection,
            picker_viewport_height: self.picker.viewport_height,
            link_open_request: text_model(self.link_open_request),
            help_scroll: self.help.scroll,
            help_max_scroll: self.help.max_scroll,
            help_viewport_height: self.help.viewport_height,
            undo_stack: history_model(self.undo_stack@),
            redo_stack: history_model(self.redo_stack@),
            copy_request: copy_model(self.copy_request),
            pending_write: write_model(self.pending_write),
            now: self.now,
        }
    }
}

} // verus!
