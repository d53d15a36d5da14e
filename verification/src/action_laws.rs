//! Laws of actions: what each of them does to tasks, messages and the file, by
//! the values themselves.

use vstd::prelude::*;

use crate::app_spec::{DiskModel, ParsedModel};
use crate::app_state::{
    AfterWriteModel, AppModel, CopyModel, CopyReport, OverviewTarget, Screen, WriteModel,
};
use crate::clipboard::CopyOutcome;
use crate::cursor_laws::asks_for_its_code;
use crate::input::Rect;
use crate::model::{DocumentModel, Item, ItemKind, TaskState};
use crate::moving_laws::{at_rest, is_entry, is_open, is_unfinished};
use crate::text::ContentHash;
use crate::{
    app_spec, card_laws, clipboard, cursor_laws, model, moving_laws, order, text, text_laws,
};

verus! {

// ----- Messages --------------------------------------------------------

/// Law: a passing message stays for four seconds, and a message that reports a
/// failure until something takes it away; neither changes anything else.
pub proof fn law_messages(m: AppModel, msg: Seq<char>)
    ensures
        m.with_status(msg).status_message == Some(msg),
        !m.with_status(msg).status_is_error,
        m.now + 4000 <= u64::MAX ==> m.with_status(msg).status_expiry == Some(
            (m.now + 4000) as u64,
        ),
        m.with_status(msg).cursor() == m.cursor(),
        m.with_status(msg).document == m.document,
        m.with_status(msg).screen == m.screen,
        m.with_error(msg).status_message == Some(msg),
        m.with_error(msg).status_is_error,
        m.with_error(msg).status_expiry is None,
        m.with_error(msg).cursor() == m.cursor(),
        m.with_error(msg).document == m.document,
        m.with_error(msg).screen == m.screen,
{
}

// ----- Scrolling -------------------------------------------------------

/// Law: a card and the help are scrolled by the given number of rows, and not
/// beyond their ends.
pub proof fn law_scrolling(m: AppModel, n: int)
    requires
        0 <= n <= u16::MAX,
        m.card_scroll <= m.card_max_scroll,
        m.help_scroll <= m.help_max_scroll,
    ensures
        m.card_scroll + n <= m.card_max_scroll ==> m.card_down(n).card_scroll == m.card_scroll + n,
        m.card_scroll + n > m.card_max_scroll ==> m.card_down(n).card_scroll == m.card_max_scroll,
        m.card_scroll >= n ==> m.card_up(n).card_scroll == m.card_scroll - n,
        m.card_scroll < n ==> m.card_up(n).card_scroll == 0,
        m.card_down(n).cursor() == m.cursor(),
        m.card_up(n).cursor() == m.cursor(),
        m.help_scroll + n <= m.help_max_scroll ==> m.help_down(n).help_scroll == m.help_scroll + n,
        m.help_scroll + n > m.help_max_scroll ==> m.help_down(n).help_scroll == m.help_max_scroll,
        m.help_scroll >= n ==> m.help_up(n).help_scroll == m.help_scroll - n,
        m.help_scroll < n ==> m.help_up(n).help_scroll == 0,
{
}

/// Law: the wheel scrolls a card that overflows by one row, and otherwise moves
/// by one card within the list; on any other screen it does neither.
pub proof fn law_wheel(m: AppModel)
    requires
        order::countable(m.document.lists),
        m.current_list_index < m.document.lists.len(),
    ensures
        m.screen == Screen::Checklist && m.card_max_scroll > 0 ==> m.wheel_down().cursor()
            == m.cursor() && m.wheel_up().cursor() == m.cursor(),
        m.screen == Screen::Checklist && m.card_scroll < m.card_max_scroll
            ==> m.wheel_down().card_scroll == m.card_scroll + 1,
        m.screen == Screen::Checklist && m.card_max_scroll > 0 && m.card_scroll > 0
            ==> m.wheel_up().card_scroll == m.card_scroll - 1,
        m.screen == Screen::Checklist && m.card_max_scroll == 0 && m.current_item_index + 1
            < m.current_items().len() ==> m.wheel_down().cursor() == (
            m.current_list_index,
            (m.current_item_index + 1) as usize,
        ),
        m.screen == Screen::Checklist && m.card_max_scroll == 0 && m.current_item_index + 1
            >= m.current_items().len() ==> m.wheel_down().cursor() == m.cursor(),
        m.screen == Screen::Checklist && m.card_max_scroll == 0 && m.current_item_index > 0
            ==> m.wheel_up().cursor() == (m.current_list_index, (m.current_item_index - 1) as usize),
        m.screen == Screen::Checklist && m.card_max_scroll == 0 && m.current_item_index == 0
            ==> m.wheel_up().cursor() == m.cursor(),
        m.screen != Screen::Checklist ==> m.wheel_down().cursor() == m.cursor()
            && m.wheel_up().cursor() == m.cursor() && m.wheel_down().card_scroll == m.card_scroll
            && m.wheel_up().card_scroll == m.card_scroll,
        m.wheel_down().document == m.document,
        m.wheel_up().document == m.document,
        m.wheel_down().status_message is None,
        m.wheel_up().status_message is None,
        !m.wheel_down().pending_g && !m.wheel_down().pending_open_link,
        !m.wheel_up().pending_g && !m.wheel_up().pending_open_link,
{
    assert(m.document.lists[m.current_list_index as int].items.len() <= usize::MAX);
    let cleared = m.without_chords();
    assert(cleared.current_items() == m.current_items());
}

// ----- Overlays and leaving --------------------------------------------

/// Law: the help opens at its top, the go-to-task overlay with no filter and the
/// first row highlighted; both keep the screen below.
pub proof fn law_overlays_open(m: AppModel)
    ensures
        m.helped().screen == Screen::Help,
        m.helped().help_scroll == 0,
        m.helped().screen_before_confirm == m.screen,
        m.helped().cursor() == m.cursor(),
        m.helped().document == m.document,
        m.picking().screen == Screen::ListPicker,
        m.picking().picker_query.len() == 0,
        m.picking().picker_selection == 0,
        m.picking().screen_before_confirm == m.screen,
        m.picking().cursor() == m.cursor(),
        m.picking().document == m.document,
{
}

/// Some card is a task.
pub open spec fn some_task(m: AppModel) -> bool {
    exists|l: int, i: int|
        0 <= l < m.document.lists.len() && 0 <= i < m.document.lists[l].items.len() && (
        #[trigger] m.document.lists[l].items[i]).kind is Checkbox
}

/// Some task is not done.
pub open spec fn some_open(m: AppModel) -> bool {
    exists|l: int, i: int|
        0 <= l < m.document.lists.len() && 0 <= i < m.document.lists[l].items.len() && is_open(
            #[trigger] m.document.lists[l].items[i],
        )
}

/// Some task is started or done.
pub open spec fn some_progress(m: AppModel) -> bool {
    exists|l: int, i: int|
        0 <= l < m.document.lists.len() && 0 <= i < m.document.lists[l].items.len() && ((
        #[trigger] m.document.lists[l].items[i]).kind matches ItemKind::Checkbox(state) && state
            != TaskState::NotStarted)
}

/// Lemma: what the document's questions come to.
proof fn lemma_questions(m: AppModel)
    ensures
        model::has_tasks(m.document.lists) == some_task(m),
        model::lists_all_done(m.document.lists) == !some_open(m),
        model::any_progress(m.document.lists) == some_progress(m),
{
    let lists = m.document.lists;
    assert forall|l: int, i: int|
        0 <= l < lists.len() && 0 <= i < lists[l].items.len() implies model::open_task(
        (#[trigger] lists[l].items[i]).kind,
    ) == is_open(lists[l].items[i]) && model::progressed(lists[l].items[i].kind) == (
    lists[l].items[i].kind matches ItemKind::Checkbox(state) && state != TaskState::NotStarted) by {
        card_laws::law_open_and_progressed(lists[l].items[i].kind);
    }
    if some_open(m) {
        let (l, i) = choose|l: int, i: int|
            0 <= l < lists.len() && 0 <= i < lists[l].items.len() && is_open(
                #[trigger] lists[l].items[i],
            );
        assert(model::open_task(lists[l].items[i].kind));
        assert(!model::all_done(lists[l].items));
    } else {
        assert forall|l: int| 0 <= l < lists.len() implies model::all_done(
            (#[trigger] lists[l]).items,
        ) by {
            assert forall|i: int| 0 <= i < lists[l].items.len() implies !model::open_task(
                (#[trigger] lists[l].items[i]).kind,
            ) by {
                assert(!is_open(lists[l].items[i]));
            }
        }
    }
    if some_progress(m) {
        let (l, i) = choose|l: int, i: int|
            0 <= l < lists.len() && 0 <= i < lists[l].items.len() && ((
            #[trigger] lists[l].items[i]).kind matches ItemKind::Checkbox(state) && state
                != TaskState::NotStarted);
        assert(model::progressed(lists[l].items[i].kind));
    }
    if model::any_progress(lists) {
        let (l, i) = choose|l: int, i: int|
            0 <= l < lists.len() && 0 <= i < lists[l].items.len() && model::progressed(
                (#[trigger] lists[l].items[i]).kind,
            );
        assert(lists[l].items[i].kind matches ItemKind::Checkbox(state) && state
            != TaskState::NotStarted);
    }
}

/// Law: leaving asks about a reset exactly if there are tasks and all of them
/// are done; otherwise it is at once.
pub proof fn law_leaving(m: AppModel)
    ensures
        some_task(m) && !some_open(m) ==> m.leaving().screen == Screen::ConfirmQuitReset
            && m.leaving().should_quit == m.should_quit && m.leaving().screen_before_confirm
            == m.screen,
        !(some_task(m) && !some_open(m)) ==> m.leaving().should_quit && m.leaving().screen
            == m.screen,
        m.leaving().document == m.document,
{
    lemma_questions(m);
}

/// Law: a reset is asked about exactly if some task is started or done.
pub proof fn law_reset_is_asked_about(m: AppModel)
    ensures
        some_progress(m) ==> m.reset_requested().screen == Screen::ConfirmReset
            && m.reset_requested().screen_before_confirm == m.screen,
        !some_progress(m) ==> m.reset_requested().screen == m.screen
            && m.reset_requested().status_is_error,
        m.reset_requested().document == m.document,
{
    lemma_questions(m);
}

// ----- Changing tasks --------------------------------------------------

/// What a change of a task is called.
pub open spec fn called(verb: Seq<char>, card: Item) -> Seq<char> {
    verb + " \""@ + (match card.header {
        Some(h) => h@,
        None => card.display_text@,
    }) + "\""@
}

/// From `m` to `after`, the task at the place was brought into the state, and
/// that waits to be written, with the states from before it; nothing else of the
/// document changed.
pub open spec fn brings_into(
    m: AppModel,
    after: AppModel,
    list: int,
    item: int,
    state: TaskState,
) -> bool {
    let card = m.document.lists[list].items[item];
    let lists = after.document.lists;
    &&& lists.len() == m.document.lists.len()
    &&& lists[list].items[item] == (Item { kind: ItemKind::Checkbox(state), ..card })
    &&& forall|l: int, i: int|
        0 <= l < lists.len() && 0 <= i < lists[l].items.len() && (l, i) != (list, item)
            ==> #[trigger] lists[l].items[i] == m.document.lists[l].items[i]
    &&& forall|l: int|
        0 <= l < lists.len() ==> (#[trigger] lists[l]).items.len()
            == m.document.lists[l].items.len() && lists[l].title == m.document.lists[l].title
    &&& after.document.raw_lines == m.document.raw_lines
    &&& after.document.uses_crlf == m.document.uses_crlf
    &&& after.document.trailing_newline == m.document.trailing_newline
    &&& after.document.file_path == m.document.file_path
    &&& after.cursor() == m.cursor()
    &&& after.screen == m.screen
    &&& after.pending_write matches Some(write) && write.pre_state == model::task_states(
        m.document.lists,
    ) && write.change_desc == called(
        match state {
            TaskState::Done => "Check"@,
            TaskState::Started => "Start"@,
            TaskState::NotStarted => "Uncheck"@,
        },
        card,
    )
}

/// Lemma: setting a task.
proof fn lemma_task_set(
    m: AppModel,
    list: usize,
    item: usize,
    state: TaskState,
    then_do: AfterWriteModel,
)
    requires
        list < m.document.lists.len(),
        item < m.document.lists[list as int].items.len(),
    ensures
        brings_into(m, m.task_set(list, item, state, then_do), list as int, item as int, state),
        m.task_set(list, item, state, then_do).pending_write->0.then_do == then_do,
{
    let after = m.task_set(list, item, state, then_do);
    let lists = after.document.lists;
    assert forall|l: int, i: int|
        0 <= l < lists.len() && 0 <= i < lists[l].items.len() && (l, i) != (
            list as int,
            item as int,
        ) implies #[trigger] lists[l].items[i] == m.document.lists[l].items[i] by {}
    card_laws::law_card_is_named(m.document.lists[list as int].items[item as int]);
}

/// Law: toggling brings the task under the cursor into the state done, or, if
/// it is done, back to not started; nothing else changes. Where the file is
/// gone, nothing does.
pub proof fn law_toggling(m: AppModel, state: TaskState)
    requires
        m.current_list_index < m.document.lists.len(),
        m.current_item_index < m.current_items().len(),
        m.current_items()[m.current_item_index as int].kind == ItemKind::Checkbox(state),
    ensures
        ({
            let after = m.toggled();
            let done = state != TaskState::Done;
            &&& !m.file_deleted ==> brings_into(
                m,
                after,
                m.current_list_index as int,
                m.current_item_index as int,
                if done {
                    TaskState::Done
                } else {
                    TaskState::NotStarted
                },
            ) && after.pending_write->0.then_do == (AfterWriteModel::Toggle { done })
            &&& m.file_deleted ==> after.document == m.document && after.pending_write
                == m.pending_write && after.status_is_error
        }),
{
    let next = if state == TaskState::Done {
        TaskState::NotStarted
    } else {
        TaskState::Done
    };
    lemma_task_set(
        m,
        m.current_list_index,
        m.current_item_index,
        next,
        AfterWriteModel::Toggle { done: next == TaskState::Done },
    );
}

/// Law: starting brings the task under the cursor into the state started, or,
/// if it is started, back to not started; nothing else changes.
pub proof fn law_starting(m: AppModel, state: TaskState)
    requires
        m.current_list_index < m.document.lists.len(),
        m.current_item_index < m.current_items().len(),
        m.current_items()[m.current_item_index as int].kind == ItemKind::Checkbox(state),
    ensures
        ({
            let after = m.started();
            &&& !m.file_deleted ==> brings_into(
                m,
                after,
                m.current_list_index as int,
                m.current_item_index as int,
                if state != TaskState::Started {
                    TaskState::Started
                } else {
                    TaskState::NotStarted
                },
            ) && after.pending_write->0.then_do is Start
            &&& m.file_deleted ==> after.document == m.document && after.pending_write
                == m.pending_write && after.status_is_error
        }),
{
    let next = if state == TaskState::Started {
        TaskState::NotStarted
    } else {
        TaskState::Started
    };
    lemma_task_set(
        m,
        m.current_list_index,
        m.current_item_index,
        next,
        AfterWriteModel::Start,
    );
}

/// Law: toggling a note goes forward instead, and reports where there is
/// nothing further; starting one changes nothing. There is nothing to write.
pub proof fn law_notes_are_passed_over(m: AppModel)
    requires
        at_rest(m),
        m.current_item_index < m.current_items().len(),
        m.current_items()[m.current_item_index as int].kind == ItemKind::DisplayOnly,
    ensures
        m.toggled().document == m.document,
        m.toggled().pending_write == m.pending_write,
        m.current_item_index + 1 < m.current_items().len() ==> m.toggled().cursor() == (
            m.current_list_index,
            (m.current_item_index + 1) as usize,
        ),
        m.current_item_index + 1 >= m.current_items().len() && m.current_list_index + 1
            < m.document.lists.len() ==> m.toggled().current_list_index == m.current_list_index + 1,
        m.current_item_index + 1 >= m.current_items().len() && m.current_list_index + 1
            >= m.document.lists.len() ==> m.toggled().cursor() == m.cursor()
            && m.toggled().status_is_error,
        m.started().document == m.document,
        m.started().pending_write == m.pending_write,
        m.started().cursor() == m.cursor(),
        m.started().status_is_error,
{
    moving_laws::law_forward(m);
    assert(m.document.lists[m.current_list_index as int].items.len() <= usize::MAX);
}

/// Law: toggling a task of the overview toggles that task and leaves the cursor
/// where it is; a place without a task is ignored.
pub proof fn law_overview_toggles(m: AppModel, list: usize, item: usize)
    ensures
        ({
            let after = m.item_toggled(list, item);
            let there = list < m.document.lists.len() && item
                < m.document.lists[list as int].items.len();
            &&& after.cursor() == m.cursor()
            &&& !m.file_deleted && there && (m.document.lists[list as int].items[item as int].kind
                is Checkbox) ==> {
                let done = m.document.lists[list as int].items[item as int].kind
                    != ItemKind::Checkbox(TaskState::Done);
                &&& brings_into(
                    m,
                    after,
                    list as int,
                    item as int,
                    if done {
                        TaskState::Done
                    } else {
                        TaskState::NotStarted
                    },
                )
                &&& after.pending_write->0.then_do == (AfterWriteModel::Overview { done })
            }
            &&& m.file_deleted || !there || !(m.document.lists[list as int].items[item as int].kind
                is Checkbox) ==> after.document == m.document && after.pending_write
                == m.pending_write
        }),
{
    if list < m.document.lists.len() && item < m.document.lists[list as int].items.len() {
        if let ItemKind::Checkbox(state) = m.document.lists[list as int].items[item as int].kind {
            let next = if state == TaskState::Done {
                TaskState::NotStarted
            } else {
                TaskState::Done
            };
            lemma_task_set(
                m,
                list,
                item,
                next,
                AfterWriteModel::Overview { done: next == TaskState::Done },
            );
        }
    }
}

/// Law: a reset sets every task back and leaves all other cards, the lines and
/// the cursor alone; the states from before it wait to be written with it.
pub proof fn law_resetting(m: AppModel, l: int, i: int)
    requires
        0 <= l < m.document.lists.len(),
        0 <= i < m.document.lists[l].items.len(),
    ensures
        ({
            let after = m.all_reset();
            let card = m.document.lists[l].items[i];
            &&& !m.file_deleted ==> {
                &&& after.document.lists.len() == m.document.lists.len()
                &&& after.document.lists[l].items.len() == m.document.lists[l].items.len()
                &&& card.kind is Checkbox ==> after.document.lists[l].items[i] == (Item {
                    kind: ItemKind::Checkbox(TaskState::NotStarted),
                    ..card
                })
                &&& !(card.kind is Checkbox) ==> after.document.lists[l].items[i] == card
                &&& after.document.raw_lines == m.document.raw_lines
                &&& after.pending_write matches Some(write) && write.pre_state
                    == model::task_states(m.document.lists) && write.then_do is Reset
                    && write.change_desc == "Reset all tasks to not done"@
            }
            &&& m.file_deleted ==> after.document == m.document && after.pending_write
                == m.pending_write && after.status_is_error
            &&& after.cursor() == m.cursor()
        }),
{
    card_laws::law_reset_sets_every_task_back(m.document.lists, l, i);
}

// ----- The history -----------------------------------------------------

/// Law: a change is entered into the history as the latest; of a hundred and one
/// the oldest goes; and nothing can be redone after it.
pub proof fn law_recording(m: AppModel, pre_state: Seq<(usize, TaskState)>)
    ensures
        m.undo_stack.len() < 100 ==> m.recorded(pre_state).undo_stack == m.undo_stack.push(
            pre_state,
        ),
        m.undo_stack.len() == 100 ==> m.recorded(pre_state).undo_stack == m.undo_stack.drop_first(
        ).push(pre_state),
        m.recorded(pre_state).redo_stack.len() == 0,
        m.recorded(pre_state).cursor() == m.cursor(),
        m.recorded(pre_state).document == m.document,
{
    let longer = m.undo_stack.push(pre_state);
    if m.undo_stack.len() == 100 {
        assert(longer.subrange(1, longer.len() as int) =~= m.undo_stack.drop_first().push(
            pre_state,
        ));
    }
}

/// Law: undoing takes the latest entry of the history, and redoing the latest
/// one that was undone: each is applied, and waits to be written with the states
/// from before it. With none, or where the file is gone, nothing changes.
pub proof fn law_history_steps(m: AppModel)
    ensures
        !m.file_deleted && m.undo_stack.len() > 0 ==> {
            let after = m.undone();
            &&& after.document.lists == model::restored(m.document.lists, m.undo_stack.last())
            &&& after.undo_stack == m.undo_stack.drop_last()
            &&& after.redo_stack == m.redo_stack
            &&& after.pending_write matches Some(write) && write.pre_state == model::task_states(
                m.document.lists,
            )
        },
        !m.file_deleted && m.redo_stack.len() > 0 ==> {
            let after = m.redone();
            &&& after.document.lists == model::restored(m.document.lists, m.redo_stack.last())
            &&& after.redo_stack == m.redo_stack.drop_last()
            &&& after.undo_stack == m.undo_stack
            &&& after.pending_write matches Some(write) && write.pre_state == model::task_states(
                m.document.lists,
            )
        },
        m.file_deleted || m.undo_stack.len() == 0 ==> m.undone().document == m.document
            && m.undone().pending_write == m.pending_write && m.undone().status_is_error,
        m.file_deleted || m.redo_stack.len() == 0 ==> m.redone().document == m.document
            && m.redone().pending_write == m.pending_write && m.redone().status_is_error,
{
}

/// Law: a step of the history that changed one task leads to the first card from
/// its line and says what became of it; one that changed several says how many;
/// one that changed none says so.
pub proof fn law_history_is_reported(m: AppModel, redo: bool, changed: Seq<usize>)
    requires
        order::countable(m.document.lists),
    ensures
        ({
            let after = m.history_reported(redo, changed);
            let verb = if redo {
                "Redo"@
            } else {
                "Undo"@
            };
            &&& after.screen == Screen::Checklist
            &&& after.document == m.document
            &&& changed.len() == 0 ==> after.status_message == Some(verb + ": no change"@)
                && after.cursor() == m.cursor()
            &&& changed.len() > 1 ==> after.status_message == Some(
                verb + ": restored "@ + text::decimal(changed.len()) + " tasks"@,
            ) && after.cursor() == m.cursor()
            &&& changed.len() == 1 ==> {
                let there = model::places(
                    m.document.lists,
                    |card: Item| card.line_number == changed[0],
                );
                &&& there.len() > 0 ==> after.cursor() == there[0]
                &&& there.len() == 0 ==> after.cursor() == m.cursor()
            }
        }),
{
    if changed.len() == 1 {
        let keep = crate::document::on_line(changed[0]);
        let p = |card: Item| card.line_number == changed[0];
        assert(keep =~= p);
        let lists = m.document.lists;
        order::law_places_are_exact(lists, keep);
        let found = model::places(lists, keep);
        if found.len() > 0 {
            assert(order::kept_place(lists, keep, found[0]));
            assert(lists[found[0].0 as int].items.len() <= usize::MAX);
        }
    }
}

// ----- After a write ---------------------------------------------------

/// Law: a task that was completed leads to the summary of the document, if all
/// tasks of it are done; to that of the list, if only those of the list are; and
/// to the next card of the list otherwise. A task that was set back shows the
/// checklist.
pub proof fn law_completed_task_leads_on(m: AppModel, pre_state: Seq<(usize, TaskState)>)
    requires
        order::countable(m.document.lists),
        m.current_list_index < m.document.lists.len(),
    ensures
        ({
            let after = m.after_toggle(pre_state, true);
            &&& !is_unfinished(m.current_items()) && !some_open(m) ==> after.screen
                == Screen::AllComplete && after.cursor() == m.cursor()
            &&& !is_unfinished(m.current_items()) && some_open(m) ==> after.screen
                == Screen::ListComplete && after.cursor() == m.cursor()
            &&& is_unfinished(m.current_items()) && m.current_item_index + 1
                < m.current_items().len() ==> after.cursor() == (
                m.current_list_index,
                (m.current_item_index + 1) as usize,
            )
            &&& is_unfinished(m.current_items()) && m.current_item_index + 1
                >= m.current_items().len() ==> after.cursor() == m.cursor()
            &&& after.document == m.document
        }),
        m.after_toggle(pre_state, false).screen == Screen::Checklist,
        m.after_toggle(pre_state, false).cursor() == m.cursor(),
        m.after_start(pre_state).screen == Screen::Checklist,
        m.after_start(pre_state).cursor() == m.cursor(),
        m.after_reset(pre_state).screen == Screen::Checklist,
        m.after_reset(pre_state).cursor() == m.cursor(),
{
    lemma_questions(m);
    let items = m.current_items();
    assert(items.len() <= usize::MAX);
    lemma_all_done(items);
    let kept = m.recorded(pre_state);
    assert(kept.current_items() == items);
}

/// Lemma: when a list is done.
proof fn lemma_all_done(items: Seq<Item>)
    ensures
        model::all_done(items) == !is_unfinished(items),
{
    assert forall|i: int| 0 <= i < items.len() implies model::open_task(
        (#[trigger] items[i]).kind,
    ) == is_open(items[i]) by {
        card_laws::law_open_and_progressed(items[i].kind);
    }
    if is_unfinished(items) {
        let j = choose|j: int| 0 <= j < items.len() && is_open(#[trigger] items[j]);
        assert(model::open_task(items[j].kind));
    }
}

/// Law: toggling a task of the overview keeps the screen, unless it shows a
/// summary that no longer holds: then the checklist is shown. The cursor stays.
pub proof fn law_overview_keeps_true_summaries(
    m: AppModel,
    pre_state: Seq<(usize, TaskState)>,
    done: bool,
)
    requires
        m.current_list_index < m.document.lists.len(),
    ensures
        ({
            let after = m.after_overview(pre_state, done);
            &&& after.cursor() == m.cursor()
            &&& after.document == m.document
            &&& m.screen == Screen::AllComplete ==> after.screen == if some_open(m) {
                Screen::Checklist
            } else {
                Screen::AllComplete
            }
            &&& m.screen == Screen::ListComplete ==> after.screen == if is_unfinished(
                m.current_items(),
            ) {
                Screen::Checklist
            } else {
                Screen::ListComplete
            }
            &&& m.screen == Screen::Checklist ==> after.screen == Screen::Checklist
            &&& after.status_message == Some(
                if done {
                    "Marked done"@
                } else {
                    "Marked not done"@
                },
            )
        }),
{
    lemma_questions(m);
    lemma_all_done(m.current_items());
    let kept = m.recorded(pre_state);
    assert(kept.current_items() == m.current_items());
}

/// Law: from a finished list, going on leads to the nearest list after it that
/// has a task not done, where that is entered; with none after it, to the
/// summary of the document.
pub proof fn law_finished_list_leads_on(m: AppModel)
    requires
        order::countable(m.document.lists),
        m.current_list_index < m.document.lists.len(),
    ensures
        ({
            let after = m.advanced_list();
            let lists = m.document.lists;
            let here = m.current_list_index;
            &&& (exists|l: int| here < l < lists.len() && is_unfinished((#[trigger] lists[l]).items))
                ==> {
                &&& here < after.current_list_index < lists.len()
                &&& is_unfinished(lists[after.current_list_index as int].items)
                &&& forall|l: int|
                    here < l < after.current_list_index ==> !is_unfinished(
                        (#[trigger] lists[l]).items,
                    )
                &&& is_entry(
                    lists[after.current_list_index as int].items,
                    after.current_item_index as int,
                )
                &&& after.screen == Screen::Checklist
            }
            &&& !(exists|l: int|
                here < l < lists.len() && is_unfinished((#[trigger] lists[l]).items))
                ==> after.cursor() == m.cursor() && after.screen == Screen::AllComplete
        }),
{
    let lists = m.document.lists;
    let p = model::list_has_open();
    text::lemma_first_from(lists, p, m.current_list_index + 1);
    assert forall|l: int| 0 <= l < lists.len() implies p(#[trigger] lists[l]) == is_unfinished(
        lists[l].items,
    ) by {
        moving_laws::lemma_unfinished(m, l);
    }
    if let Some(i) = m.next_incomplete() {
        moving_laws::lemma_at_list(m, i as usize);
        assert(is_unfinished(lists[i].items));
    }
}

/// Law: what was written is what counts as seen of the file, and is what is
/// handed to git-sync: the whole content, its hash, the hash of what was there
/// before, and what changed.
pub proof fn law_written_content_is_handed_on(
    m: AppModel,
    stat: Option<(u128, u64)>,
    desc: Seq<char>,
)
    ensures
        ({
            let after = m.noted_written(stat, desc);
            let content = m.document.contents();
            &&& after.pending_write is None
            &&& after.document == m.document
            &&& after.cursor() == m.cursor()
            &&& after.file_content_hash == Some(text::text_hash(content))
            &&& stat matches Some(s) ==> after.file_mtime == Some(s.0) && after.file_size == Some(
                s.1,
            )
            &&& stat is None ==> after.file_mtime is None && after.file_size is None
            &&& after.last_update_at == Some(m.now)
            &&& after.sync_pending matches Some(sync) && sync.content == content
                && sync.content_hash == text::text_hash(content) && sync.previous_content_hash
                == m.file_content_hash && sync.description == desc
        }),
{
}

// ----- The file on disk ------------------------------------------------

/// Law: a write is refused exactly if the file could be read and has another
/// hash than what was last seen of it.
pub proof fn law_divergence(m: AppModel, hash: Option<ContentHash>)
    ensures
        m.diverged(hash) <==> hash is Some && hash != m.file_content_hash,
{
}

/// Law: a file is reloaded exactly if it was gone, or has another modification
/// time or another size than what was last seen of it.
pub proof fn law_changes_on_disk(m: AppModel, mtime: u128, size: u64)
    ensures
        m.changed_on_disk(mtime, size) <==> m.file_deleted || m.file_mtime != Some(mtime)
            || m.file_size != Some(size),
{
}

/// Law: that the file is gone is reported once, and nothing else changes until
/// it is back.
pub proof fn law_gone_is_reported_once(m: AppModel)
    ensures
        m.gone().file_deleted,
        m.gone().document == m.document,
        m.gone().cursor() == m.cursor(),
        !m.file_deleted ==> m.gone().status_message == Some(
            "File deleted — changes cannot be saved"@,
        ) && m.gone().status_is_error,
        m.file_deleted ==> m.gone() == m,
{
}

/// Law: a reload that takes a file over keeps the hash, the time and the size
/// that the file was found with, shows the checklist, and says that it reloaded;
/// one that does not says why, and keeps the cursor.
pub proof fn law_reloading(m: AppModel, disk: DiskModel, was_deleted: bool)
    ensures
        ({
            let after = m.reloaded(disk, was_deleted);
            &&& !after.file_deleted
            &&& after.file_mtime == Some(disk.mtime)
            &&& after.file_size == Some(disk.size)
            &&& disk.parsed matches ParsedModel::Read(new) ==> new.lists.len() > 0 ==> {
                &&& after.document == new
                &&& after.file_content_hash == disk.hash
                &&& after.undo_stack.len() == 0
                &&& after.redo_stack.len() == 0
                &&& after.screen == Screen::Checklist
                &&& !after.status_is_error
                &&& after.status_message == Some(
                    if was_deleted {
                        "File restored — reloaded"@
                    } else {
                        "Reloaded: file changed on disk"@
                    },
                )
            }
            &&& disk.parsed matches ParsedModel::Read(new) ==> new.lists.len() == 0 ==> {
                &&& after.document == m.document
                &&& after.cursor() == m.cursor()
                &&& after.file_content_hash == m.file_content_hash
                &&& after.undo_stack == m.undo_stack
                &&& after.status_is_error
                &&& after.status_message == Some("Reload skipped: file has no checklist items"@)
            }
            &&& disk.parsed matches ParsedModel::Failed(reason) ==> {
                &&& after.document == m.document
                &&& after.cursor() == m.cursor()
                &&& after.file_content_hash == m.file_content_hash
                &&& after.undo_stack == m.undo_stack
                &&& after.status_is_error
                &&& after.status_message == Some("Reload failed: "@ + reason)
            }
        }),
{
}

/// Law: a change that met a changed file is taken back, what the file holds now
/// is loaded, and a message that stays asks for another try.
pub proof fn law_conflicts(m: AppModel, disk: Option<DiskModel>)
    requires
        m.pending_write is Some,
    ensures
        ({
            let after = m.conflicted(disk);
            &&& after.pending_write is None
            &&& after.status_is_error
            &&& after.status_message == Some(
                "File changed on disk — reloaded; change not saved, please retry"@,
            )
            &&& disk matches Some(d) ==> (d.parsed matches ParsedModel::Read(new)
                ==> new.lists.len() > 0 ==> after.document == new && after.file_content_hash
                == d.hash)
            &&& disk is None ==> after.document.lists == model::restored(
                m.document.lists,
                m.pending_write->0.pre_state,
            ) && after.file_content_hash == m.file_content_hash
        }),
{
}

/// Nothing of the file as found on disk can be taken over: it could not be looked
/// up, was not understood, or has no list.
pub open spec fn leaves_document(disk: Option<DiskModel>) -> bool {
    match disk {
        None => true,
        Some(d) => match d.parsed {
            ParsedModel::Failed(_) => true,
            ParsedModel::Read(new) => new.lists.len() == 0,
        },
    }
}

/// Law: where the file changed and nothing of it can be taken over, the change is
/// taken back, and a step of the history can be taken again; where the file is
/// taken over, the history goes.
pub proof fn law_conflicts_and_the_history(
    m: AppModel,
    disk: Option<DiskModel>,
    write: WriteModel,
    redo: bool,
    snapshot: Seq<(usize, TaskState)>,
    changed: Seq<usize>,
)
    requires
        m.pending_write == Some(write),
    ensures
        ({
            let after = m.conflicted(disk);
            &&& leaves_document(disk) ==> after.document.lists == model::restored(
                m.document.lists,
                write.pre_state,
            )
            &&& leaves_document(disk) ==> after.file_content_hash == m.file_content_hash
            &&& leaves_document(disk) && !(write.then_do is History) ==> after.undo_stack
                == m.undo_stack && after.redo_stack == m.redo_stack
            &&& leaves_document(disk) && write.then_do == (AfterWriteModel::History {
                redo,
                snapshot,
                changed,
            }) && redo ==> after.redo_stack == m.redo_stack.push(snapshot) && after.undo_stack
                == m.undo_stack
            &&& leaves_document(disk) && write.then_do == (AfterWriteModel::History {
                redo,
                snapshot,
                changed,
            }) && !redo ==> after.undo_stack == m.undo_stack.push(snapshot) && after.redo_stack
                == m.redo_stack
            &&& !leaves_document(disk) ==> after.undo_stack.len() == 0 && after.redo_stack.len()
                == 0
        }),
{
}

// ----- Copying ---------------------------------------------------------

/// Law: a copy chooses among the code blocks of a card, where it has any, and
/// among its inline code otherwise; it is made exactly if there is one to choose
/// from.
pub proof fn law_sole_code(item: Item)
    ensures
        item.code_blocks@.len() > 0 ==> clipboard::code_candidates(item) == item.code_blocks@,
        item.code_blocks@.len() == 0 ==> clipboard::code_candidates(item) == item.code_spans@,
        item.code_blocks@.len() == 1 ==> clipboard::sole_code(item) == Some(
            item.code_blocks@[0]@,
        ),
        item.code_blocks@.len() > 1 ==> clipboard::sole_code(item) is None,
        item.code_blocks@.len() == 0 && item.code_spans@.len() == 1 ==> clipboard::sole_code(item)
            == Some(item.code_spans@[0]@),
        item.code_blocks@.len() == 0 && item.code_spans@.len() != 1 ==> clipboard::sole_code(item)
            is None,
{
}

/// Law: copying asks for exactly the card's one piece of code; with none, or
/// with several, it says so and asks for nothing.
pub proof fn law_copying_code(m: AppModel, item: Item)
    requires
        m.current_item() == Some(item),
    ensures
        ({
            let after = m.code_copied();
            let found = if item.code_blocks@.len() > 0 {
                item.code_blocks@
            } else {
                item.code_spans@
            };
            &&& found.len() == 1 ==> after.copy_request == Some(
                CopyModel {
                    text: found[0]@,
                    primary: m.clipboard_primary,
                    report: CopyReport::Always,
                },
            )
            &&& found.len() == 0 ==> after.copy_request == m.copy_request && after.status_message
                == Some("Nothing to copy: item has no code"@) && after.status_is_error
            &&& found.len() > 1 ==> after.copy_request == m.copy_request && after.status_message
                == Some(
                "Not copied: item has "@ + text::decimal(found.len()) + " code candidates"@,
            ) && after.status_is_error
            &&& after.document == m.document
            &&& after.cursor() == m.cursor()
        }),
{
}

/// Law: automatic copying asks for the one piece of code of the card under the
/// cursor, if it is on; it changes nothing else, and nothing where it is off or
/// there is not just one.
pub proof fn law_automatic_copying(m: AppModel, item: Item, report: CopyReport)
    requires
        m.current_item() == Some(item),
    ensures
        ({
            let after = m.auto_copied(report);
            let found = if item.code_blocks@.len() > 0 {
                item.code_blocks@
            } else {
                item.code_spans@
            };
            &&& m.auto_copy && found.len() == 1 ==> after.copy_request == Some(
                CopyModel { text: found[0]@, primary: m.clipboard_primary, report },
            )
            &&& !m.auto_copy || found.len() != 1 ==> after.copy_request == m.copy_request
            &&& after.status_message == m.status_message
            &&& after.cursor() == m.cursor()
            &&& after.document == m.document
        }),
{
}

/// Law: a copy that succeeded is reported by a passing message that says by
/// which way, unless it came with a reload; one that failed is reported by a
/// message that stays if it was asked for, and not at all otherwise.
pub proof fn law_copies_are_reported(m: AppModel, report: CopyReport, outcome: CopyOutcome)
    ensures
        ({
            let after = m.copy_reported(report, outcome);
            let good = outcome == CopyOutcome::CopiedSystem || outcome == CopyOutcome::CopiedOsc52;
            &&& report == CopyReport::Never ==> after.status_message == m.status_message
            &&& report != CopyReport::Never && outcome == CopyOutcome::CopiedSystem
                ==> after.status_message == Some("Copied to clipboard"@) && !after.status_is_error
            &&& report == CopyReport::Always && outcome == CopyOutcome::NoCandidates
                ==> after.status_message == Some("Nothing to copy: item has no code"@)
            &&& report == CopyReport::Always ==> (outcome matches CopyOutcome::Ambiguous(n)
                ==> after.status_message == Some(
                "Not copied: item has "@ + text::decimal(n as nat) + " code candidates"@,
            ))
            &&& report == CopyReport::Always && outcome == CopyOutcome::TooLarge
                ==> after.status_message == Some(
                "Copy failed: too large for the terminal clipboard (OSC 52)"@,
            )
            &&& report == CopyReport::Always && outcome == CopyOutcome::Failed
                ==> after.status_message == Some("Copy failed: no clipboard available"@)
            &&& report != CopyReport::Never && outcome == CopyOutcome::CopiedOsc52
                ==> after.status_message == Some("Sent to clipboard (OSC 52)"@)
                && !after.status_is_error
            &&& report == CopyReport::OnSuccess && !good ==> after.status_message
                == m.status_message
            &&& report == CopyReport::Always && !good ==> after.status_is_error
                && after.status_message is Some
            &&& after.cursor() == m.cursor()
            &&& after.document == m.document
        }),
{
}

/// Law: the escape that carries a copy is the introducer, the letter of the
/// selection, a semicolon, the payload as it is, and the bell, with nothing
/// between or after; and a text is sent exactly if its base64 form has at most
/// seventy thousand characters, four for every three bytes begun.
pub proof fn law_escape_carries_the_payload(payload: Seq<char>, selection: char, s: Seq<char>)
    ensures
        clipboard::osc52_escape(payload, selection) == seq![
            '\x1b',
            ']',
            '5',
            '2',
            ';',
            selection,
            ';',
        ] + payload + seq!['\x07'],
        clipboard::fits_osc52(s) <==> (vstd::utf8::encode_utf8(s).len() + 2) / 3 * 4 <= 70_000,
{
    reveal_strlit("\x1b]52;");
    reveal_strlit(";");
    reveal_strlit("\x07");
    assert(clipboard::osc52_escape(payload, selection) =~= seq![
        '\x1b',
        ']',
        '5',
        '2',
        ';',
        selection,
        ';',
    ] + payload + seq!['\x07']);
}

// ----- Links -----------------------------------------------------------

/// Law: a link is asked to be opened exactly if it may be; otherwise it is
/// refused by name.
pub proof fn law_opening_links(m: AppModel, url: Seq<char>)
    ensures
        text::safe_link(url) ==> m.link_opened(url).link_open_request == Some(url) && m.link_opened(
            url,
        ).status_message == Some("Opening "@ + url),
        !text::safe_link(url) ==> m.link_opened(url).link_open_request == m.link_open_request
            && m.link_opened(url).status_is_error && m.link_opened(url).status_message == Some(
            "Not opened: unsupported link type ("@ + url + ")"@,
        ),
        m.link_opened(url).cursor() == m.cursor(),
        m.link_opened(url).document == m.document,
{
    text_laws::law_safe_links(url);
}

/// Law: the one link of a card is opened at once; with several, a number is
/// awaited, and then the link of that number, counted from one, is opened; with
/// none, or with a number that is too high, a message says so.
pub proof fn law_links_by_number(m: AppModel, item: Item, n: int)
    requires
        m.current_item() == Some(item),
        1 <= n <= 9,
    ensures
        ({
            let urls = model::link_urls(item.body@);
            &&& urls.len() == 0 ==> m.current_link_opened().status_is_error
                && m.current_link_opened().link_open_request == m.link_open_request
                && !m.current_link_opened().pending_open_link == !m.pending_open_link
            &&& urls.len() == 1 ==> m.current_link_opened() == m.link_opened(urls[0]@)
            &&& urls.len() > 1 ==> m.current_link_opened().pending_open_link
                && m.current_link_opened().link_open_request == m.link_open_request
            &&& n <= urls.len() ==> m.link_number_opened(n) == m.link_opened(urls[n - 1]@)
            &&& n > urls.len() ==> m.link_number_opened(n).link_open_request
                == m.link_open_request && m.link_number_opened(n).status_is_error
                && m.link_number_opened(n).status_message == Some(
                "No link ["@ + text::decimal(n as nat) + "] on this card"@,
            )
        }),
{
}

// ----- The mouse -------------------------------------------------------

/// Law: a rectangle covers the cells from its corner on, as many columns and
/// rows as it has, as far as the screen can have any.
pub proof fn law_rectangles(r: Rect, col: u16, row: u16)
    ensures
        r.covers(col, row) <==> {
            &&& r.x <= col < r.x + r.width
            &&& r.y <= row < r.y + r.height
            &&& col < u16::MAX
            &&& row < u16::MAX
        },
{
}

/// Law: a click on a row of the overview does what the first row under it is
/// for, on the content screens; a click on a piece of code copies that piece; a
/// click elsewhere on the card copies its one piece of code; any other click does
/// nothing but take the message away.
pub proof fn law_clicks(m: AppModel, col: u16, row: u16, k: int)
    ensures
        ({
            let after = m.clicked(col, row);
            let cleared = m.without_chords();
            let content = m.screen == Screen::Checklist || m.screen == Screen::ListComplete
                || m.screen == Screen::AllComplete;
            let rows = m.overview_rows;
            let codes = m.code_regions;
            let no_row = !content || forall|j: int|
                0 <= j < rows.len() ==> !(#[trigger] rows[j]).0.covers(col, row);
            let no_code = forall|j: int|
                0 <= j < codes.len() ==> !(#[trigger] codes[j]).0.covers(col, row);
            &&& content && 0 <= k < rows.len() && rows[k].0.covers(col, row) && (forall|j: int|
                0 <= j < k ==> !(#[trigger] rows[j]).0.covers(col, row)) ==> after
                == cleared.row_clicked(rows[k].1)
            &&& no_row && m.screen == Screen::Checklist && 0 <= k < codes.len()
                && codes[k].0.covers(col, row) && (forall|j: int|
                0 <= j < k ==> !(#[trigger] codes[j]).0.covers(col, row)) ==> after.copy_request
                == Some(
                CopyModel {
                    text: codes[k].1@,
                    primary: m.clipboard_primary,
                    report: CopyReport::Always,
                },
            )
            &&& no_row && m.screen == Screen::Checklist && no_code && (m.card_rect matches Some(c)
                && c.covers(col, row)) ==> after == cleared.code_copied()
            &&& no_row && m.screen == Screen::Checklist && no_code && !(m.card_rect matches Some(c)
                && c.covers(col, row)) ==> after == cleared
            &&& no_row && m.screen != Screen::Checklist ==> after == cleared
        }),
{
    let rows = m.overview_rows;
    let codes = m.code_regions;
    let p = app_spec::row_covers(col, row);
    let q = app_spec::region_covers(col, row);
    text::lemma_first_from(rows, p, 0);
    text::lemma_first_from(codes, q, 0);
    assert forall|j: int| 0 <= j < rows.len() implies p(#[trigger] rows[j]) == rows[j].0.covers(
        col,
        row,
    ) by {}
    assert forall|j: int| 0 <= j < codes.len() implies q(#[trigger] codes[j]) == codes[j].0.covers(
        col,
        row,
    ) by {}
    if 0 <= k < rows.len() && rows[k].0.covers(col, row) && (forall|j: int|
        0 <= j < k ==> !(#[trigger] rows[j]).0.covers(col, row)) {
        text::lemma_first_from_is(rows, p, 0, k);
    }
    if 0 <= k < codes.len() && codes[k].0.covers(col, row) && (forall|j: int|
        0 <= j < k ==> !(#[trigger] codes[j]).0.covers(col, row)) {
        text::lemma_first_from_is(codes, q, 0, k);
    }
}

/// Law: the rows of the overview: a list's goes to the list, a card's to the
/// card, and a marker's toggles the task.
pub proof fn law_overview_rows(m: AppModel, list: usize, item: usize)
    requires
        order::countable(m.document.lists),
    ensures
        m.row_clicked(OverviewTarget::List(list)) == m.at_list(list),
        m.row_clicked(OverviewTarget::Toggle(list, item)) == m.item_toggled(list, item),
        list < m.document.lists.len() && item < m.document.lists[list as int].items.len()
            ==> m.row_clicked(OverviewTarget::Item(list, item)).cursor() == (list, item)
            && m.row_clicked(OverviewTarget::Item(list, item)).screen == Screen::Checklist,
        m.row_clicked(OverviewTarget::Item(list, item)).document == m.document,
{
    if list < m.document.lists.len() {
        assert(m.document.lists[list as int].items.len() <= usize::MAX);
    }
}

// ----- Starting --------------------------------------------------------

/// Law: the application starts on the first task of the document that is not
/// done; with none, at the beginning. It shows the checklist, with nothing to
/// undo, and what was found of the file counts as seen.
pub proof fn law_starting_place(
    document: DocumentModel,
    mtime: Option<u128>,
    size: Option<u64>,
    hash: Option<ContentHash>,
)
    requires
        order::countable(document.lists),
    ensures
        ({
            let m = AppModel::initial(document, mtime, size, hash);
            let lists = document.lists;
            &&& m.document == document
            &&& m.screen == Screen::Checklist
            &&& m.undo_stack.len() == 0
            &&& m.redo_stack.len() == 0
            &&& m.pending_write is None
            &&& !m.should_quit
            &&& m.file_mtime == mtime
            &&& m.file_size == size
            &&& m.file_content_hash == hash
            &&& (exists|l: int| 0 <= l < lists.len() && is_unfinished((#[trigger] lists[l]).items))
                ==> {
                &&& m.current_list_index < lists.len()
                &&& is_unfinished(lists[m.current_list_index as int].items)
                &&& is_entry(
                    lists[m.current_list_index as int].items,
                    m.current_item_index as int,
                )
                &&& forall|l: int|
                    0 <= l < m.current_list_index ==> !is_unfinished((#[trigger] lists[l]).items)
            }
            &&& !(exists|l: int|
                0 <= l < lists.len() && is_unfinished((#[trigger] lists[l]).items)) ==> m.cursor()
                == (0usize, 0usize)
        }),
{
    let m = AppModel::initial(document, mtime, size, hash);
    let lists = document.lists;
    let p = model::list_has_open();
    text::lemma_first_from(lists, p, 0);
    assert forall|l: int| 0 <= l < lists.len() implies p(#[trigger] lists[l]) == is_unfinished(
        lists[l].items,
    ) by {
        moving_laws::lemma_unfinished(m, l);
    }
    if let Some(list) = text::first_from(lists, p, 0) {
        let items = lists[list].items;
        assert(items.len() <= usize::MAX);
        card_laws::law_first_open_task(items);
        let i = model::first_open(items)->0;
        assert(is_open(items[i]));
        assert forall|j: int| 0 <= j < i implies !is_open(#[trigger] items[j]) by {}
    }
}

// ----- Where the cursor is put -----------------------------------------

/// Law: moving the cursor puts it where it is told, and shows the card from its
/// top; going to a card that is not there goes to the last one of the list, and
/// to a list without cards nowhere.
pub proof fn law_placing_the_cursor(m: AppModel, list: usize, item: usize)
    requires
        order::countable(m.document.lists),
    ensures
        m.moved(list, item).cursor() == (list, item),
        m.moved(list, item).card_scroll == 0,
        m.moved(list, item).card_max_scroll == 0,
        m.moved(list, item).screen == m.screen,
        m.moved(list, item).document == m.document,
        m.shown(list, item).cursor() == (list, item),
        m.shown(list, item).card_scroll == 0,
        m.shown(list, item).screen == Screen::Checklist,
        m.shown(list, item).document == m.document,
        list < m.document.lists.len() ==> {
            let n = m.document.lists[list as int].items.len();
            &&& item < n ==> m.focused(list, item).cursor() == (list, item)
            &&& 0 < n <= item ==> m.focused(list, item).cursor() == (list, (n - 1) as usize)
            &&& n > 0 ==> m.focused(list, item).screen == Screen::Checklist && m.focused(
                list,
                item,
            ).card_scroll == 0
            &&& n == 0 ==> m.focused(list, item) == m
        },
        list >= m.document.lists.len() ==> m.focused(list, item) == m,
        m.focused(list, item).document == m.document,
{
    if list < m.document.lists.len() {
        assert(m.document.lists[list as int].items.len() <= usize::MAX);
    }
}

/// Law: back from the summary of the document leads to the last card of its last
/// list.
pub proof fn law_back_from_the_summary(m: AppModel)
    requires
        order::countable(m.document.lists),
        m.document.lists.len() > 0,
    ensures
        ({
            let after = m.at_last_list();
            let last = m.document.lists.last().items;
            &&& after.current_list_index == m.document.lists.len() - 1
            &&& last.len() > 0 ==> after.current_item_index == last.len() - 1
            &&& last.len() == 0 ==> after.current_item_index == 0
            &&& after.screen == Screen::Checklist
            &&& after.document == m.document
        }),
{
    let n = m.document.lists.len() - 1;
    assert(m.document.lists[n].items.len() <= usize::MAX);
}

/// Law: where there is no further list with a task not done, the message says
/// whether the last or the first such list was meant, or that there is none at
/// all.
pub proof fn law_no_further_list_is_said(m: AppModel)
    ensures
        some_open(m) ==> m.no_further_list(true) == "Already at the "@ + "last"@
            + " incomplete list"@ && m.no_further_list(false) == "Already at the "@ + "first"@
            + " incomplete list"@,
        !some_open(m) ==> m.no_further_list(true) == "No lists have unfinished tasks"@
            && m.no_further_list(false) == "No lists have unfinished tasks"@,
{
    let lists = m.document.lists;
    let p = model::list_has_open();
    text::lemma_first_from(lists, p, 0);
    assert forall|l: int| 0 <= l < lists.len() implies p(#[trigger] lists[l]) == is_unfinished(
        lists[l].items,
    ) by {
        moving_laws::lemma_unfinished(m, l);
    }
    if some_open(m) {
        let (l, i) = choose|l: int, i: int|
            0 <= l < lists.len() && 0 <= i < lists[l].items.len() && is_open(
                #[trigger] lists[l].items[i],
            );
        assert(is_unfinished(lists[l].items));
        assert(p(lists[l]));
    } else if let Some(l) = text::first_from(lists, p, 0) {
        assert(is_unfinished(lists[l].items));
        let i = choose|i: int| 0 <= i < lists[l].items.len() && is_open(
            #[trigger] lists[l].items[i],
        );
        assert(is_open(lists[l].items[i]));
    }
}

// ----- Writes that come to an end --------------------------------------

/// Law: once a change is written, nothing waits any more, the document stays,
/// and what follows is what its kind asks for.
pub proof fn law_what_follows_a_write(m: AppModel, stat: Option<(u128, u64)>)
    requires
        m.pending_write is Some,
    ensures
        ({
            let write = m.pending_write->0;
            let noted = m.noted_written(stat, write.change_desc);
            let after = m.written(stat);
            &&& write.then_do matches AfterWriteModel::Toggle { done } ==> after
                == noted.after_toggle(write.pre_state, done)
            &&& write.then_do matches AfterWriteModel::Overview { done } ==> after
                == noted.after_overview(write.pre_state, done)
            &&& write.then_do is Start ==> after == noted.after_start(write.pre_state)
            &&& write.then_do is Reset ==> after == noted.after_reset(write.pre_state)
            &&& write.then_do matches AfterWriteModel::History { redo, changed, .. } ==> after
                == noted.after_history(write.pre_state, redo, changed)
        }),
        m.pending_write is None ==> m.written(stat) == m && m.not_written() == m,
{
}

/// Law: a reset that was written, or a start, is entered into the history; a
/// reset says that it was done.
pub proof fn law_written_changes_are_recorded(
    m: AppModel,
    pre_state: Seq<(usize, TaskState)>,
    done: bool,
)
    ensures
        m.after_reset(pre_state).undo_stack == m.recorded(pre_state).undo_stack,
        m.after_reset(pre_state).redo_stack.len() == 0,
        m.after_reset(pre_state).status_message == Some("All tasks reset to not done"@),
        m.after_start(pre_state).undo_stack == m.recorded(pre_state).undo_stack,
        m.after_start(pre_state).redo_stack.len() == 0,
        m.after_toggle(pre_state, done).undo_stack == m.recorded(pre_state).undo_stack,
        m.after_toggle(pre_state, done).redo_stack.len() == 0,
        m.after_overview(pre_state, done).undo_stack == m.recorded(pre_state).undo_stack,
        m.after_overview(pre_state, done).redo_stack.len() == 0,
{
}

/// Law: an undo that was written can be redone next, and a redo undone next: the
/// states from before it are the latest of the other half of the history, which
/// is otherwise as it was.
pub proof fn law_written_history_steps_turn_over(
    m: AppModel,
    pre_state: Seq<(usize, TaskState)>,
    changed: Seq<usize>,
)
    ensures
        m.after_history(pre_state, false, changed).redo_stack == m.redo_stack.push(pre_state),
        m.after_history(pre_state, false, changed).undo_stack == m.undo_stack,
        m.after_history(pre_state, true, changed).undo_stack == m.undo_stack.push(pre_state),
        m.after_history(pre_state, true, changed).redo_stack == m.redo_stack,
{
    lemma_reported_keeps_history(m, false, changed);
    lemma_reported_keeps_history(m, true, changed);
}

/// Lemma: reporting a step of the history keeps the history.
proof fn lemma_reported_keeps_history(m: AppModel, redo: bool, changed: Seq<usize>)
    ensures
        m.history_reported(redo, changed).undo_stack == m.undo_stack,
        m.history_reported(redo, changed).redo_stack == m.redo_stack,
{
    if changed.len() == 1 {
        let there = m.on_screen(Screen::Checklist);
        if let Some(place) = there.line_place(changed[0]) {
            assert(there.focused(place.0, place.1).undo_stack == m.undo_stack);
            assert(there.focused(place.0, place.1).redo_stack == m.redo_stack);
        }
    }
}

/// Law: a change that could not be written is taken back by its line numbers,
/// and the reason that it brought along is reported by a message that stays.
pub proof fn law_failed_writes_are_reported(m: AppModel)
    requires
        m.pending_write is Some,
    ensures
        m.not_written().pending_write is None,
        m.not_written().status_message == Some((m.pending_write->0).fail_msg),
        m.not_written().status_is_error,
        m.not_written().document.lists == model::restored(
            m.document.lists,
            (m.pending_write->0).pre_state,
        ),
        m.not_written().file_content_hash == m.file_content_hash,
        m.not_written().cursor() == m.cursor(),
{
}

/// Law: a step of the history is called by its direction and the number of tasks
/// that it changes, and its failure by its direction.
pub proof fn law_history_steps_are_called(
    m: AppModel,
    redo: bool,
    snapshot: Seq<(usize, TaskState)>,
)
    ensures
        ({
            let after = m.history_applied(redo, snapshot);
            let n = model::changes(m.document.lists, snapshot).len();
            let verb = if redo {
                "Redo"@
            } else {
                "Undo"@
            };
            &&& after.pending_write matches Some(write) && write.change_desc == verb + ": "@
                + text::decimal(n) + " item"@ + (if n == 1 {
                ""@
            } else {
                "s"@
            }) && write.fail_msg == verb + " failed — write error, change not saved"@
                && write.pre_state == model::task_states(m.document.lists)
            &&& after.pending_write->0.then_do == (AfterWriteModel::History {
                redo,
                snapshot,
                changed: model::changes(m.document.lists, snapshot),
            })
            &&& after.document.lists == model::restored(m.document.lists, snapshot)
            &&& after.cursor() == m.cursor()
        }),
{
}

/// Law: after a step of the history the state of the card under the cursor is
/// said as it is.
pub proof fn law_restored_state_is_said(m: AppModel, card: Item)
    requires
        m.current_item() == Some(card),
    ensures
        card.kind == ItemKind::Checkbox(TaskState::Done) ==> m.restored_as() == "marked done"@,
        card.kind == ItemKind::Checkbox(TaskState::Started) ==> m.restored_as()
            == "marked started"@,
        card.kind == ItemKind::Checkbox(TaskState::NotStarted) ==> m.restored_as()
            == "marked not done"@,
{
}

/// Law: one task that a step of the history changed is said by its state.
pub proof fn law_one_change_is_said(m: AppModel, redo: bool, line: usize)
    ensures
        ({
            let after = m.history_reported(redo, seq![line]);
            let there = m.on_screen(Screen::Checklist).line_focused(line);
            &&& after.cursor() == there.cursor()
            &&& after.status_message == Some(
                (if redo {
                    "Redo"@
                } else {
                    "Undo"@
                }) + ": "@ + there.restored_as(),
            )
            &&& !after.status_is_error
        }),
{
}

/// Law: a change of a task that cannot be written says that it was not saved,
/// and a change where the file is gone says that it cannot be.
pub proof fn law_changes_say_why_they_fail(
    m: AppModel,
    list: usize,
    item: usize,
    state: TaskState,
    then_do: AfterWriteModel,
)
    ensures
        m.task_set(list, item, state, then_do).pending_write matches Some(write) && write.fail_msg
            == "Write failed — change not saved to disk"@,
        m.refused_as_deleted().status_message == Some("File was deleted — cannot save changes"@),
        m.refused_as_deleted().status_is_error,
        !m.file_deleted ==> (m.all_reset().pending_write matches Some(write) && write.fail_msg
            == "Write failed — reset not saved to disk"@),
{
}

// ----- Automatic copying on the way ------------------------------------

/// Law: with automatic copying, a search that is committed or cycled, a card that
/// is picked or clicked, another section and the way back from the summary all
/// ask for the code of the card that is reached.
pub proof fn law_reached_cards_are_copied(m: AppModel, query: Seq<char>, list: usize, item: usize)
    requires
        m.auto_copy,
    ensures
        asks_for_its_code(m.search_committed()),
        m.search_last == Some(query) && m.matches(query).len() > 0 ==> asks_for_its_code(
            m.search_cycled(true),
        ) && asks_for_its_code(m.search_cycled(false)),
        m.picker_selection < m.picker_places().len() ==> asks_for_its_code(m.picked()),
        m.at_sub_section(true).cursor() != m.cursor() ==> asks_for_its_code(m.at_sub_section(true)),
        m.at_sub_section(false).cursor() != m.cursor() ==> asks_for_its_code(
            m.at_sub_section(false),
        ),
        asks_for_its_code(m.row_clicked(OverviewTarget::Item(list, item))),
        asks_for_its_code(m.at_last_list()),
{
    lemma_committed_search_copies(m);
    if m.search_last == Some(query) && m.matches(query).len() > 0 {
        lemma_cycled_search_copies(m, query, true);
        lemma_cycled_search_copies(m, query, false);
    }
    if m.picker_selection < m.picker_places().len() {
        let place = m.picker_places()[m.picker_selection as int];
        cursor_laws::lemma_auto_copied(m.focused(place.0, place.1));
    }
    lemma_section_copies(m, true);
    lemma_section_copies(m, false);
    cursor_laws::lemma_auto_copied(m.focused(list, item));
    cursor_laws::lemma_auto_copied(
        m.shown(
            (m.document.lists.len() - 1) as usize,
            app_spec::last_index(m.document.lists.last().items.len()),
        ),
    );
}

/// Lemma: a committed search asks for the code of the card that is reached.
proof fn lemma_committed_search_copies(m: AppModel)
    requires
        m.auto_copy,
    ensures
        asks_for_its_code(m.search_committed()),
{
    let query = m.search_query;
    let n = m.matches(query).len();
    let closed = AppModel {
        search_last: if query.len() > 0 {
            Some(query)
        } else {
            None
        },
        screen: Screen::Checklist,
        ..m
    };
    cursor_laws::lemma_auto_copied(closed);
    cursor_laws::lemma_auto_copied(closed.with_error("No matches for \""@ + query + "\""@));
    cursor_laws::lemma_auto_copied(closed.with_status("Match 1/1"@));
    cursor_laws::lemma_auto_copied(
        closed.with_status("Match 1/"@ + text::decimal(n) + " · n/N to cycle"@),
    );
}

/// Lemma: a cycled search asks for the code of the card that is reached.
proof fn lemma_cycled_search_copies(m: AppModel, query: Seq<char>, forward: bool)
    requires
        m.auto_copy,
        m.search_last == Some(query),
        m.matches(query).len() > 0,
    ensures
        asks_for_its_code(m.search_cycled(forward)),
{
    let found = m.matches(query);
    let target = if forward {
        app_spec::match_after(found, m.cursor())
    } else {
        app_spec::match_before(found, m.cursor())
    };
    cursor_laws::lemma_auto_copied(
        m.focused(found[target].0, found[target].1).with_status(
            "Match "@ + text::decimal((target + 1) as nat) + "/"@ + text::decimal(found.len()),
        ),
    );
}

/// Lemma: going to another section asks for the code of the card that is reached.
proof fn lemma_section_copies(m: AppModel, forward: bool)
    requires
        m.auto_copy,
    ensures
        m.at_sub_section(forward).cursor() != m.cursor() ==> asks_for_its_code(
            m.at_sub_section(forward),
        ),
{
    let starts = model::section_starts(m.current_items());
    let found = if forward {
        text::first_from(starts, app_spec::above(m.current_item_index), 0)
    } else {
        text::last_before(starts, app_spec::below(m.current_item_index), starts.len() as int)
    };
    if let Some(k) = found {
        let item = starts[k];
        cursor_laws::lemma_auto_copied(
            m.focused(m.current_list_index, item).with_status(
                "Sub-section: "@ + m.current_items()[item as int].section@.last().text@,
            ),
        );
    }
}

/// Law: with automatic copying, a new version of the document asks for the code of
/// the card that the cursor is on then, without a report.
pub proof fn law_reloading_copies(
    m: AppModel,
    new: DocumentModel,
    hash: Option<ContentHash>,
    was_deleted: bool,
    code: Seq<char>,
)
    requires
        m.auto_copy,
    ensures
        ({
            let after = m.adopted(new, hash, was_deleted);
            after.current_item() matches Some(card) && clipboard::sole_code(card) == Some(code)
                ==> after.copy_request == Some(
                CopyModel { text: code, primary: m.clipboard_primary, report: CopyReport::Never },
            )
        }),
{
}

// ----- Refusals --------------------------------------------------------

/// Law: what cannot be done is refused with the reason for it, by a message that
/// stays: a reset with nothing to reset, a step of the history with none left, a
/// link where the card has none, and sections where the list has none.
pub proof fn law_refusals_say_why(m: AppModel, forward: bool)
    ensures
        !some_progress(m) ==> m.reset_requested() == m.with_error(
            "Nothing to reset: no tasks are done"@,
        ),
        !m.file_deleted && m.undo_stack.len() == 0 ==> m.undone() == m.with_error(
            "Nothing to undo"@,
        ),
        !m.file_deleted && m.redo_stack.len() == 0 ==> m.redone() == m.with_error(
            "Nothing to redo"@,
        ),
        m.file_deleted ==> m.undone() == m.refused_as_deleted() && m.redone()
            == m.refused_as_deleted() && m.all_reset() == m.refused_as_deleted(),
        m.urls().len() == 0 ==> m.current_link_opened() == m.with_error(
            "Nothing to open: card has no link"@,
        ),
        model::section_starts(m.current_items()).len() == 0 ==> m.at_sub_section(forward)
            == m.with_error("No sub-sections in this list"@),
{
    lemma_questions(m);
}

/// Law: at the last section there is no further one, and at the first no earlier
/// one, and that is said.
pub proof fn law_no_further_section_is_said(m: AppModel)
    ensures
        ({
            let starts = model::section_starts(m.current_items());
            &&& starts.len() > 0 && (forall|k: int|
                0 <= k < starts.len() ==> #[trigger] starts[k] <= m.current_item_index)
                ==> m.at_sub_section(true) == m.with_error(
                "Already at the "@ + "last"@ + " sub-section"@,
            )
            &&& starts.len() > 0 && (forall|k: int|
                0 <= k < starts.len() ==> #[trigger] starts[k] >= m.current_item_index)
                ==> m.at_sub_section(false) == m.with_error(
                "Already at the "@ + "first"@ + " sub-section"@,
            )
        }),
{
    let starts = model::section_starts(m.current_items());
    let later = app_spec::above(m.current_item_index);
    let earlier = app_spec::below(m.current_item_index);
    text::lemma_first_from(starts, later, 0);
    text::lemma_last_before(starts, earlier, starts.len() as int);
}

/// Law: a note is no task: starting it is refused, and toggling it as well where
/// no card follows; after a step of the history it counts as restored.
pub proof fn law_notes_are_no_tasks(m: AppModel, card: Item)
    requires
        order::countable(m.document.lists),
        m.current_item() == Some(card),
        card.kind == ItemKind::DisplayOnly,
    ensures
        m.started() == m.with_error("Nothing to start: this card is a note, not a task"@),
        m.current_item_index + 1 == m.current_items().len() && m.current_list_index + 1
            == m.document.lists.len() ==> m.toggled() == m.with_error(
            "Nothing to toggle: this is a note, and it's the last card"@,
        ),
        m.restored_as() == "restored"@,
{
    assert(m.document.lists[m.current_list_index as int].items.len() <= usize::MAX);
}

} // verus!
