//! Laws of changing tasks: what a failed write, an undo, a redo and a reload
//! bring back.

use vstd::prelude::*;

use crate::app_laws;
use crate::app_spec::{DiskModel, ParsedModel};
use crate::app_state::{AfterWriteModel, AppModel, Screen};
use crate::model::{DocumentModel, Item, ListModel, TaskState};
use crate::text::ContentHash;
use crate::{app_spec, input_laws, model, text};

verus! {

// ----- Snapshots -------------------------------------------------------

/// Card `j` of list `i` is there, and is a task.
pub open spec fn is_task(lists: Seq<ListModel>, i: int, j: int) -> bool {
    &&& 0 <= i < lists.len()
    &&& 0 <= j < lists[i].items.len()
    &&& lists[i].items[j].kind is Checkbox
}

/// No two tasks come from the same line.
pub open spec fn distinct_lines(lists: Seq<ListModel>) -> bool {
    forall|i: int, j: int, k: int, l: int|
        #![trigger is_task(lists, i, j), is_task(lists, k, l)]
        is_task(lists, i, j) && is_task(lists, k, l) && lists[i].items[j].line_number
            == lists[k].items[l].line_number ==> i == k && j == l
}

/// Lemma: what is wanted by two snapshots one after the other.
proof fn lemma_wanted_concat(
    a: Seq<(usize, TaskState)>,
    b: Seq<(usize, TaskState)>,
    line: usize,
)
    ensures
        model::wanted_state(a + b, line) == (match model::wanted_state(b, line) {
            Some(state) => Some(state),
            None => model::wanted_state(a, line),
        }),
    decreases b.len(),
{
    if b.len() == 0 {
        assert(a + b =~= a);
    } else {
        assert((a + b).drop_last() =~= a + b.drop_last());
        lemma_wanted_concat(a, b.drop_last(), line);
    }
}

/// Card `j` is there, and is a task.
pub open spec fn is_task_of(items: Seq<Item>, j: int) -> bool {
    0 <= j < items.len() && items[j].kind is Checkbox
}

/// No two tasks of the list come from the same line.
pub open spec fn distinct_in(items: Seq<Item>) -> bool {
    forall|j: int, l: int|
        #![trigger is_task_of(items, j), is_task_of(items, l)]
        is_task_of(items, j) && is_task_of(items, l) && items[j].line_number == items[l].line_number
            ==> j == l
}

/// Lemma: a snapshot of one list wants each task in the state it is in, and
/// nothing of a line that no task of it comes from.
proof fn lemma_list_wanted(items: Seq<Item>, line: usize)
    requires
        distinct_in(items),
    ensures
        forall|j: int|
            #[trigger] is_task_of(items, j) && items[j].line_number == line
                ==> model::wanted_state(model::list_states(items), line) == Some(
                items[j].kind->Checkbox_0,
            ),
        (forall|j: int| #[trigger] is_task_of(items, j) ==> items[j].line_number != line)
            ==> model::wanted_state(model::list_states(items), line) is None,
    decreases items.len(),
{
    if items.len() > 0 {
        let front = items.drop_last();
        let last = items.len() - 1;
        assert forall|j: int, l: int|
            #![trigger is_task_of(front, j), is_task_of(front, l)]
            is_task_of(front, j) && is_task_of(front, l) && front[j].line_number
                == front[l].line_number implies j == l by {
            assert(is_task_of(items, j) && is_task_of(items, l));
        }
        lemma_list_wanted(front, line);
        let rest = model::list_states(front);
        let all = model::list_states(items);
        if items.last().kind is Checkbox {
            assert(is_task_of(items, last));
            assert(all.drop_last() =~= rest);
        }
        assert forall|j: int| #[trigger] is_task_of(items, j) && items[j].line_number
            == line implies model::wanted_state(all, line) == Some(items[j].kind->Checkbox_0) by {
            if j < last {
                assert(is_task_of(front, j));
                if items.last().kind is Checkbox {
                    assert(is_task_of(items, last));
                }
            }
        }
        if forall|j: int| #[trigger] is_task_of(items, j) ==> items[j].line_number != line {
            assert forall|j: int| #[trigger] is_task_of(front, j) implies front[j].line_number
                != line by {
                assert(is_task_of(items, j));
            }
        }
    }
}

/// Lemma: a snapshot wants each task in the state it is in, and nothing of a
/// line that no task comes from.
pub proof fn lemma_wanted(lists: Seq<ListModel>, line: usize)
    requires
        distinct_lines(lists),
    ensures
        forall|i: int, j: int|
            #[trigger] is_task(lists, i, j) && lists[i].items[j].line_number == line
                ==> model::wanted_state(model::task_states(lists), line) == Some(
                lists[i].items[j].kind->Checkbox_0,
            ),
        (forall|i: int, j: int| #[trigger]
            is_task(lists, i, j) ==> lists[i].items[j].line_number != line)
            ==> model::wanted_state(model::task_states(lists), line) is None,
    decreases lists.len(),
{
    if lists.len() > 0 {
        let front = lists.drop_last();
        let last = lists.len() - 1;
        let items = lists.last().items;
        assert forall|i: int, j: int, k: int, l: int|
            #![trigger is_task(front, i, j), is_task(front, k, l)]
            is_task(front, i, j) && is_task(front, k, l) && front[i].items[j].line_number
                == front[k].items[l].line_number implies i == k && j == l by {
            assert(is_task(lists, i, j) && is_task(lists, k, l));
        }
        assert forall|j: int, l: int|
            #![trigger is_task_of(items, j), is_task_of(items, l)]
            is_task_of(items, j) && is_task_of(items, l) && items[j].line_number
                == items[l].line_number implies j == l by {
            assert(is_task(lists, last, j) && is_task(lists, last, l));
        }
        lemma_wanted(front, line);
        lemma_list_wanted(items, line);
        let before = model::task_states(front);
        let own = model::list_states(items);
        lemma_wanted_concat(before, own, line);
        assert forall|i: int, j: int| #[trigger]
            is_task(lists, i, j) && lists[i].items[j].line_number == line implies
            model::wanted_state(before + own, line) == Some(lists[i].items[j].kind->Checkbox_0) by {
            if i < last {
                assert(is_task(front, i, j));
                assert forall|l: int| #[trigger] is_task_of(items, l) implies items[l].line_number
                    != line by {
                    assert(is_task(lists, last, l));
                }
            } else {
                assert(is_task_of(items, j));
            }
        }
        if forall|i: int, j: int| #[trigger]
            is_task(lists, i, j) ==> lists[i].items[j].line_number != line {
            assert forall|i: int, j: int| #[trigger] is_task(front, i, j) implies
                front[i].items[j].line_number != line by {
                assert(is_task(lists, i, j));
            }
            assert forall|j: int| #[trigger] is_task_of(items, j) implies items[j].line_number
                != line by {
                assert(is_task(lists, last, j));
            }
        }
    }
}

/// Law: applying a snapshot to a document that differs from the one it was
/// taken of in the states of tasks alone brings that one back.
pub proof fn law_snapshot_brings_the_states_back(before: DocumentModel, after: DocumentModel)
    requires
        distinct_lines(before.lists),
        app_laws::same_but_states(before, after),
    ensures
        model::restored(after.lists, model::task_states(before.lists)) == before.lists,
{
    let snapshot = model::task_states(before.lists);
    let out = model::restored(after.lists, snapshot);
    assert forall|i: int| 0 <= i < before.lists.len() implies #[trigger] out[i]
        == before.lists[i] by {
        let a = before.lists[i];
        let b = after.lists[i];
        assert(app_laws::same_list_but_states(a, b));
        assert(out[i] == model::restored_list(b, snapshot));
        assert forall|j: int| 0 <= j < a.items.len() implies #[trigger] out[i].items[j]
            == a.items[j] by {
            assert(app_laws::same_but_state(a.items[j], b.items[j]));
            lemma_wanted(before.lists, a.items[j].line_number);
            if a.items[j].kind is Checkbox {
                assert(is_task(before.lists, i, j));
            }
        }
        assert(out[i].items =~= a.items);
    }
    assert(out =~= before.lists);
}

// ----- A write that fails ----------------------------------------------

/// Law: a change that could not be written, because writing failed or because
/// the file had changed and cannot be read, is taken back: the document is what
/// it was before, and nothing waits to be written.
pub proof fn law_failed_write_takes_the_change_back(before: AppModel, changed: AppModel)
    requires
        input_laws::proposes(before, changed),
        distinct_lines(before.document.lists),
    ensures
        changed.not_written().document == before.document,
        changed.not_written().settled(),
        changed.not_written().file_content_hash == before.file_content_hash,
        changed.not_written().sync_pending == before.sync_pending,
        changed.conflicted(None).document == before.document,
        changed.conflicted(None).settled(),
{
    law_snapshot_brings_the_states_back(before.document, changed.document);
    assert(changed.taken_back(before.states()).document == before.document);
}

/// Law: an undo or a redo that could not be written can be tried again: the
/// document and the history are what they were.
pub proof fn law_failed_history_step_can_be_retried(m: AppModel)
    requires
        m.settled(),
        !m.file_deleted,
        distinct_lines(m.document.lists),
    ensures
        m.undo_stack.len() > 0 ==> {
            let after = m.undone().not_written();
            &&& after.document == m.document
            &&& after.undo_stack == m.undo_stack
            &&& after.redo_stack == m.redo_stack
        },
        m.redo_stack.len() > 0 ==> {
            let after = m.redone().not_written();
            &&& after.document == m.document
            &&& after.undo_stack == m.undo_stack
            &&& after.redo_stack == m.redo_stack
        },
{
    if m.undo_stack.len() > 0 {
        lemma_failed_undo(m);
    }
    if m.redo_stack.len() > 0 {
        lemma_failed_redo(m);
    }
}

/// Lemma: an undo that could not be written.
proof fn lemma_failed_undo(m: AppModel)
    requires
        m.settled(),
        !m.file_deleted,
        distinct_lines(m.document.lists),
        m.undo_stack.len() > 0,
    ensures
        m.undone().not_written().document == m.document,
        m.undone().not_written().undo_stack == m.undo_stack,
        m.undone().not_written().redo_stack == m.redo_stack,
{
    app_laws::lemma_restored(m, m.undo_stack.last());
    law_snapshot_brings_the_states_back(m.document, m.undone().document);
    assert(m.undone().taken_back(m.states()).document == m.document);
    assert(m.undo_stack.drop_last().push(m.undo_stack.last()) =~= m.undo_stack);
}

/// Lemma: a redo that could not be written.
proof fn lemma_failed_redo(m: AppModel)
    requires
        m.settled(),
        !m.file_deleted,
        distinct_lines(m.document.lists),
        m.redo_stack.len() > 0,
    ensures
        m.redone().not_written().document == m.document,
        m.redone().not_written().undo_stack == m.undo_stack,
        m.redone().not_written().redo_stack == m.redo_stack,
{
    app_laws::lemma_restored(m, m.redo_stack.last());
    law_snapshot_brings_the_states_back(m.document, m.redone().document);
    assert(m.redone().taken_back(m.states()).document == m.document);
    assert(m.redo_stack.drop_last().push(m.redo_stack.last()) =~= m.redo_stack);
}

// ----- Undo and redo ---------------------------------------------------

/// Lemma: what recording a change does to the history.
proof fn lemma_recorded(m: AppModel, pre_state: Seq<(usize, TaskState)>)
    ensures
        m.recorded(pre_state).undo_stack.len() > 0,
        m.recorded(pre_state).undo_stack.last() == pre_state,
        m.recorded(pre_state).redo_stack.len() == 0,
        m.recorded(pre_state).document == m.document,
        m.recorded(pre_state).file_deleted == m.file_deleted,
{
}

/// From `a` to `b`, document and file stayed the same.
spec fn keeps_file(a: AppModel, b: AppModel) -> bool {
    &&& b.document == a.document
    &&& b.file_deleted == a.file_deleted
    &&& b.file_mtime == a.file_mtime
    &&& b.file_size == a.file_size
    &&& b.file_content_hash == a.file_content_hash
}

/// From `a` to `b`, document, history and file stayed the same.
spec fn keeps_history(a: AppModel, b: AppModel) -> bool {
    &&& b.undo_stack == a.undo_stack
    &&& b.redo_stack == a.redo_stack
    &&& keeps_file(a, b)
}

/// Lemma: reporting a step of the history only shows something.
proof fn lemma_history_reported(m: AppModel, redo: bool, changed: Seq<usize>)
    ensures
        keeps_history(m, m.history_reported(redo, changed)),
{
    let there = m.on_screen(Screen::Checklist);
    if changed.len() == 1 {
        if let Some(place) = there.line_place(changed[0]) {
            assert(keeps_history(m, there.focused(place.0, place.1)));
        }
        assert(keeps_history(m, there.line_focused(changed[0])));
        assert(keeps_history(m, m.one_change_reported(redo, changed[0])));
    }
}

/// Lemma: the follow-up of a fresh change records it.
proof fn lemma_followed_up(m: AppModel, pre_state: Seq<(usize, TaskState)>, then_do: AfterWriteModel)
    requires
        !(then_do is History),
    ensures
        keeps_history(m.recorded(pre_state), m.followed_up(pre_state, then_do)),
{
    let kept = m.recorded(pre_state);
    match then_do {
        AfterWriteModel::Toggle { done } => {
            assert(keeps_history(kept, kept.next()));
            assert(keeps_history(kept, kept.advanced()));
        },
        AfterWriteModel::Overview { done } => {
            let there = if kept.summary_holds() {
                kept
            } else {
                kept.on_screen(Screen::Checklist)
            };
            assert(keeps_history(kept, there));
        },
        _ => {},
    }
}

/// Law: a fresh change that was written can be undone: the document is again
/// what it was before the change. There is nothing to redo after it.
pub proof fn law_undo_takes_a_change_back(
    before: AppModel,
    changed: AppModel,
    stat: Option<(u128, u64)>,
)
    requires
        input_laws::proposes(before, changed),
        distinct_lines(before.document.lists),
        !(changed.pending_write->0.then_do is History),
    ensures
        changed.written(stat).document == changed.document,
        changed.written(stat).redo_stack.len() == 0,
        changed.written(stat).undone().document == before.document,
{
    let write = changed.pending_write->0;
    let noted = changed.noted_written(stat, write.change_desc);
    lemma_followed_up(noted, write.pre_state, write.then_do);
    lemma_recorded(noted, write.pre_state);
    law_snapshot_brings_the_states_back(before.document, changed.document);
    lemma_undone(changed.written(stat));
}

/// Lemma: what an undo does to the document and the history.
proof fn lemma_undone(m: AppModel)
    requires
        !m.file_deleted,
        m.undo_stack.len() > 0,
    ensures
        m.undone().document == m.with_states(m.undo_stack.last()).document,
        m.undone().redo_stack == m.redo_stack,
        !m.undone().file_deleted,
        m.undone().pending_write matches Some(write) && write.pre_state == m.states()
            && write.then_do is History && !write.then_do->redo,
{
}

/// Lemma: what a redo does to the document.
proof fn lemma_redone(m: AppModel)
    requires
        !m.file_deleted,
        m.redo_stack.len() > 0,
    ensures
        m.redone().document == m.with_states(m.redo_stack.last()).document,
{
}

/// Lemma: a step of the history that was written is entered into the other
/// half of the history.
proof fn lemma_history_written(m: AppModel, stat: Option<(u128, u64)>)
    requires
        m.pending_write is Some,
        m.pending_write->0.then_do is History,
    ensures
        ({
            let write = m.pending_write->0;
            let after = m.written(stat);
            let redo = write.then_do->redo;
            &&& after.document == m.document
            &&& after.file_deleted == m.file_deleted
            &&& !redo ==> after.redo_stack == m.redo_stack.push(write.pre_state)
            &&& redo ==> after.undo_stack == m.undo_stack.push(write.pre_state)
        }),
{
    let write = m.pending_write->0;
    let noted = m.noted_written(stat, write.change_desc);
    if let AfterWriteModel::History { redo, changed, .. } = write.then_do {
        lemma_history_reported(noted, redo, changed);
    }
}

/// Law: an undo that was written can be redone: the document is again what it
/// was before the undo.
pub proof fn law_redo_takes_an_undo_back(m: AppModel, stat: Option<(u128, u64)>)
    requires
        !m.file_deleted,
        m.undo_stack.len() > 0,
        distinct_lines(m.document.lists),
    ensures
        m.undone().written(stat).redone().document == m.document,
{
    lemma_undone(m);
    app_laws::lemma_restored(m, m.undo_stack.last());
    lemma_history_written(m.undone(), stat);
    lemma_redone(m.undone().written(stat));
    law_snapshot_brings_the_states_back(m.document, m.undone().document);
}

// ----- What the file holds ---------------------------------------------

/// Law: the application does not take its own write for a change by someone
/// else.
pub proof fn law_own_write_is_no_change(m: AppModel, mtime: u128, size: u64)
    requires
        m.pending_write is Some,
        !m.file_deleted,
    ensures
        !m.written(Some((mtime, size))).changed_on_disk(mtime, size),
        !m.written(Some((mtime, size))).diverged(Some(text::text_hash(m.document.contents()))),
        m.written(Some((mtime, size))).document == m.document,
{
    let write = m.pending_write->0;
    let noted = m.noted_written(Some((mtime, size)), write.change_desc);
    lemma_followed_up_keeps_file(noted, write.pre_state, write.then_do);
}

/// Lemma: the follow-up of a write keeps document and file.
proof fn lemma_followed_up_keeps_file(
    m: AppModel,
    pre_state: Seq<(usize, TaskState)>,
    then_do: AfterWriteModel,
)
    ensures
        keeps_file(m, m.followed_up(pre_state, then_do)),
{
    if let AfterWriteModel::History { redo, changed, .. } = then_do {
        lemma_history_reported(m, redo, changed);
        let told = m.history_reported(redo, changed);
        assert(keeps_file(told, told.with_step(redo, pre_state)));
        assert(m.followed_up(pre_state, then_do) == told.with_step(redo, pre_state));
    } else {
        lemma_followed_up(m, pre_state, then_do);
        assert(keeps_file(m, m.recorded(pre_state)));
    }
}

/// Law: a file that cannot be understood, or holds no checklist, is not taken
/// over: document and history stay, and so does what counts as seen of the
/// file's content, so that the next change does not overwrite it.
pub proof fn law_refused_reload_keeps_the_document(
    m: AppModel,
    disk: DiskModel,
    was_deleted: bool,
)
    requires
        !disk.adoptable(),
    ensures
        m.reloaded(disk, was_deleted).document == m.document,
        m.reloaded(disk, was_deleted).undo_stack == m.undo_stack,
        m.reloaded(disk, was_deleted).redo_stack == m.redo_stack,
        forall|h: Option<ContentHash>| #[trigger]
            m.reloaded(disk, was_deleted).diverged(h) == m.diverged(h),
{
}

/// Law: a file that holds a checklist is taken over as it is; what was done
/// before cannot be undone any more, and the file counts as seen.
pub proof fn law_reload_takes_the_file_over(
    m: AppModel,
    disk: DiskModel,
    new: DocumentModel,
    was_deleted: bool,
)
    requires
        disk.parsed == ParsedModel::Read(new),
        new.lists.len() > 0,
    ensures
        ({
            let after = m.reloaded(disk, was_deleted);
            &&& after.document == new
            &&& after.undo_stack.len() == 0
            &&& after.redo_stack.len() == 0
            &&& !after.diverged(disk.hash)
            &&& !after.changed_on_disk(disk.mtime, disk.size)
        }),
{
}

// ----- Single tasks ----------------------------------------------------

/// Law: toggling twice brings a task back, unless it was started: that is lost
/// with the first toggle. Starting twice brings a task back, unless it was
/// done.
pub proof fn law_toggling_twice(state: TaskState)
    ensures
        state != TaskState::Started ==> app_spec::toggled_done(app_spec::toggled_done(state))
            == state,
        state != TaskState::Done ==> app_spec::toggled_started(app_spec::toggled_started(state))
            == state,
{
}

/// Law: after a reset no task is started or done.
pub proof fn law_reset_leaves_no_progress(m: AppModel)
    requires
        !m.file_deleted,
    ensures
        !model::any_progress(m.all_reset().document.lists),
{
    let lists = m.all_reset().document.lists;
    assert(lists == model::cleared(m.document.lists));
    assert forall|i: int, j: int|
        0 <= i < lists.len() && 0 <= j < lists[i].items.len() implies !model::progressed(
        (#[trigger] lists[i].items[j]).kind,
    ) by {
        assert(lists[i] == model::cleared_list(m.document.lists[i]));
    }
}

/// Law: completing a task shows the summary of the document exactly if every
/// task is done, and that of the list exactly if only the tasks of the list
/// are; otherwise the checklist stays.
pub proof fn law_summaries_are_true(m: AppModel, pre_state: Seq<(usize, TaskState)>)
    requires
        m.screen == Screen::Checklist,
        m.has_list(),
    ensures
        ({
            let after = m.after_toggle(pre_state, true);
            let list_done = model::all_done(m.current_items());
            let all_done = model::lists_all_done(m.document.lists);
            &&& after.screen == Screen::AllComplete <==> all_done
            &&& after.screen == Screen::ListComplete <==> list_done && !all_done
            &&& after.screen == Screen::Checklist <==> !list_done
        }),
{
    let kept = m.recorded(pre_state);
    assert(kept.current_items() == m.current_items());
    assert(kept.next().screen == Screen::Checklist);
    if model::lists_all_done(m.document.lists) {
        assert(model::all_done(m.document.lists[m.current_list_index as int].items));
    }
}

} // verus!
