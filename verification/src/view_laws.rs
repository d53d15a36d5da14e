//! What the mathematical values say of the values that they stand for: all of it,
//! as it is.

use vstd::prelude::*;

use crate::app_spec::ParsedModel;
use crate::app_state::{AfterWrite, AfterWriteModel, AppState, CopyRequest, PendingSync, PendingWrite};
use crate::app_write::{DiskState, Parsed};
use crate::git_flow::{OutcomeModel, SyncOutcome};
use crate::git_run::{Job, JobModel, SyncJob};
use crate::git_step::{Action, Step};
use crate::git_sync::GitSync;
use crate::model::Document;
use crate::script::Modeled;

verus! {

/// Law: a document is seen with every line, every list and every card of it.
pub proof fn law_documents_are_seen_whole(d: Document, l: int)
    ensures
        d@.file_path == d.file_path,
        d@.title == d.title,
        d@.has_default_list == d.has_default_list,
        d@.raw_lines == d.raw_lines@,
        d@.uses_crlf == d.uses_crlf,
        d@.trailing_newline == d.trailing_newline,
        d@.lists.len() == d.lists@.len(),
        0 <= l < d.lists@.len() ==> d@.lists[l].title == d.lists@[l].title && d@.lists[l].banner
            == d.lists@[l].banner && d@.lists[l].items == d.lists@[l].items@,
{
}

/// Law: what waits to be committed, to be copied or to be written is seen as it
/// is.
pub proof fn law_requests_are_seen_whole(s: PendingSync, c: CopyRequest, w: PendingWrite)
    ensures
        s@.content == s.content@,
        s@.content_hash == s.content_hash,
        s@.previous_content_hash == s.previous_content_hash,
        s@.description == s.description@,
        c@.text == c.text@,
        c@.primary == c.primary,
        c@.report == c.report,
        w@.pre_state == w.pre_state@,
        w@.fail_msg == w.fail_msg@,
        w@.change_desc == w.change_desc@,
        w.then_do is Start ==> w@.then_do is Start,
        w.then_do is Reset ==> w@.then_do is Reset,
        w.then_do matches AfterWrite::Toggle { done } ==> w@.then_do == (AfterWriteModel::Toggle {
            done,
        }),
        w.then_do matches AfterWrite::Overview { done } ==> w@.then_do == (
        AfterWriteModel::Overview { done }),
        w.then_do matches AfterWrite::History { redo, snapshot, changed } ==> w@.then_do == (
        AfterWriteModel::History { redo, snapshot: snapshot@, changed: changed@ }),
{
}

/// Law: the cursor, the screen, the message and the file of the application are
/// seen as they are.
pub proof fn law_application_is_seen_whole(a: AppState)
    ensures
        a@.document == a.document@,
        a@.current_list_index == a.current_list_index,
        a@.current_item_index == a.current_item_index,
        a@.screen == a.screen,
        a.status_message matches Some(s) ==> a@.status_message == Some(s@),
        a.status_message is None ==> a@.status_message is None,
        a@.status_expiry == a.status_expiry,
        a@.status_is_error == a.status_is_error,
        a@.should_quit == a.should_quit,
        a@.file_mtime == a.file_mtime,
        a@.file_size == a.file_size,
        a@.file_content_hash == a.file_content_hash,
        a@.last_update_at == a.last_update_at,
        a.git_sync.pending matches Some(s) ==> a@.sync_pending == Some(s@),
        a.git_sync.pending is None ==> a@.sync_pending is None,
        a@.sync_last_at == a.git_sync.last_at,
        a@.editor_requested == a.editor_requested,
        a@.clipboard_primary == a.clipboard_primary,
        a@.auto_copy == a.auto_copy,
        a@.file_deleted == a.file_deleted,
        a.link_open_request matches Some(s) ==> a@.link_open_request == Some(s@),
        a.link_open_request is None ==> a@.link_open_request is None,
        a.copy_request matches Some(c) ==> a@.copy_request == Some(c@),
        a.copy_request is None ==> a@.copy_request is None,
        a.pending_write matches Some(w) ==> a@.pending_write == Some(w@),
        a.pending_write is None ==> a@.pending_write is None,
        a@.now == a.now,
{
}

/// Law: what is scrolled, clicked, searched and typed, and the history, are seen as
/// they are.
pub proof fn law_overlays_are_seen_whole(a: AppState, i: int)
    ensures
        a@.card_scroll == a.card_scroll,
        a@.card_max_scroll == a.card_max_scroll,
        a@.card_viewport_height == a.card_viewport_height,
        a@.card_rect == a.card_rect,
        a@.code_regions == a.code_regions@,
        a@.overview_rows == a.overview_rows@,
        a@.pending_g == a.pending_g,
        a@.pending_open_link == a.pending_open_link,
        a@.screen_before_confirm == a.screen_before_confirm,
        a@.search_query == a.search.query@,
        a@.search_origin == a.search.origin,
        a.search.last matches Some(s) ==> a@.search_last == Some(s@),
        a.search.last is None ==> a@.search_last is None,
        a@.picker_query == a.picker.query@,
        a@.picker_selection == a.picker.selection,
        a@.picker_viewport_height == a.picker.viewport_height,
        a@.help_scroll == a.help.scroll,
        a@.help_max_scroll == a.help.max_scroll,
        a@.help_viewport_height == a.help.viewport_height,
        a@.undo_stack.len() == a.undo_stack@.len(),
        a@.redo_stack.len() == a.redo_stack@.len(),
        0 <= i < a.undo_stack@.len() ==> a@.undo_stack[i] == a.undo_stack@[i]@,
        0 <= i < a.redo_stack@.len() ==> a@.redo_stack[i] == a.redo_stack@[i]@,
{
}

/// Law: the file as found on disk is seen as it is.
pub proof fn law_files_are_seen_whole(d: DiskState)
    ensures
        d@.mtime == d.mtime,
        d@.size == d.size,
        d@.hash == d.hash,
        d.parsed matches Parsed::Read(document) ==> d@.parsed == ParsedModel::Read(document@),
        d.parsed matches Parsed::Failed(reason) ==> d@.parsed == ParsedModel::Failed(reason@),
{
}

/// Law: git-sync and its jobs are seen as they are.
pub proof fn law_jobs_are_seen_whole(g: GitSync, j: SyncJob, job: Job)
    ensures
        g@.repo_dir == g.repo_dir@,
        g@.file_path == g.file_path@,
        g@.busy == g.busy,
        g.pending matches Some(s) ==> g@.pending == Some(s@),
        g.pending is None ==> g@.pending is None,
        g.retry matches Some((commit, at)) ==> g@.retry == Some((commit@, at)),
        g.retry is None ==> g@.retry is None,
        g@.latest_requested_hash == g.latest_requested_hash,
        j@.dir == j.dir@,
        j@.file == j.file@,
        j@.content == j.content@,
        j@.message == j.message@,
        j@.previous == j.previous,
        j@.index_name == j.index_name@,
        job matches Job::Sync(s) ==> job@ == JobModel::Sync(s@),
        job matches Job::Retry { dir, commit } ==> job@ == (JobModel::Retry {
            dir: dir@,
            commit: commit@,
        }),
        job matches Job::CatchUp { dir, file } ==> job@ == (JobModel::CatchUp {
            dir: dir@,
            file: file@,
        }),
{
}

/// Law: what a job comes to is seen as it is.
pub proof fn law_outcomes_are_seen_whole(o: SyncOutcome)
    ensures
        o is Synced <==> o.model() is Synced,
        o is Skipped <==> o.model() is Skipped,
        o is SkippedUntracked <==> o.model() is SkippedUntracked,
        o is RetryAbandoned <==> o.model() is RetryAbandoned,
        o matches SyncOutcome::CommittedNotPushed { message, commit } ==> o.model() == (
        OutcomeModel::CommittedNotPushed { message: message@, commit: commit@ }),
        o matches SyncOutcome::Failed(message) ==> o.model() == OutcomeModel::Failed(message@),
        o matches SyncOutcome::RetryFailed(message) ==> o.model() == OutcomeModel::RetryFailed(
            message@,
        ),
{
}

/// Law: the steps that change a repository, or take more than a path, are seen as
/// they are.
pub proof fn law_steps_are_seen_whole(s: Step)
    ensures
        s@.dir == s.dir@,
        s.action matches Action::StoreBlob { content } ==> s@.action == (Action::StoreBlob {
            content: content@,
        }),
        s.action matches Action::FillIndex { index, tree } ==> s@.action == (Action::FillIndex {
            index: index@,
            tree: tree@,
        }),
        s.action matches Action::StageTemporary { index, mode, blob, relpath } ==> s@.action == (
        Action::StageTemporary { index: index@, mode: mode@, blob: blob@, relpath: relpath@ }),
        s.action matches Action::Commit { index, message } ==> s@.action == (Action::Commit {
            index: index@,
            message: message@,
        }),
        s.action matches Action::RemoveIndex { index } ==> s@.action == (Action::RemoveIndex {
            index: index@,
        }),
        s.action matches Action::StageReal { mode, blob, relpath } ==> s@.action == (
        Action::StageReal { mode: mode@, blob: blob@, relpath: relpath@ }),
        s.action matches Action::MoveHead { target, created } ==> s@.action == (Action::MoveHead {
            target: target@,
            created: created@,
        }),
        s.action matches Action::DeleteBranch { branch, created } ==> s@.action == (
        Action::DeleteBranch { branch: branch@, created: created@ }),
        s.action matches Action::Push { remote, commit, branch } ==> s@.action == (Action::Push {
            remote: remote@,
            commit: commit@,
            branch: branch@,
        }),
        s.action matches Action::ShowAt { commit, relpath } ==> s@.action == (Action::ShowAt {
            commit: commit@,
            relpath: relpath@,
        }),
        s.action matches Action::BlobAt { commit, relpath } ==> s@.action == (Action::BlobAt {
            commit: commit@,
            relpath: relpath@,
        }),
{
}

} // verus!
