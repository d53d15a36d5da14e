//! Laws of input: what a key or a click can change at all.

use vstd::prelude::*;

use crate::app_laws;
use crate::app_state::{AfterWriteModel, AppModel, CopyReport, OverviewTarget, Screen};
use crate::input::{KeyCode, KeyModifiers};
use crate::model::{ItemKind, TaskState};
use crate::{app_spec, model, text};

verus! {

/// From `a` to `b`, only what is shown changed: not the document, nor what is
/// known of the file, nor the history, nor what waits to be written or
/// committed.
pub open spec fn view_only(a: AppModel, b: AppModel) -> bool {
    &&& b.document == a.document
    &&& b.pending_write == a.pending_write
    &&& b.undo_stack == a.undo_stack
    &&& b.redo_stack == a.redo_stack
    &&& same_file(a, b)
}

/// From `a` to `b`, what is known of the file stayed the same.
pub open spec fn same_file(a: AppModel, b: AppModel) -> bool {
    &&& b.file_deleted == a.file_deleted
    &&& b.file_mtime == a.file_mtime
    &&& b.file_size == a.file_size
    &&& b.file_content_hash == a.file_content_hash
    &&& b.sync_pending == a.sync_pending
}

/// From `a` to `b`, the states of tasks changed, and that change waits to be
/// written; the file is there, and the states from before the change are kept.
pub open spec fn proposes(a: AppModel, b: AppModel) -> bool {
    &&& !a.file_deleted
    &&& b.pending_write matches Some(write) && write.pre_state == a.states()
    &&& app_laws::same_but_states(a.document, b.document)
    &&& same_file(a, b)
}

/// A link that is asked for now, and was not before, is a web or mail link.
pub open spec fn asks_safely(a: AppModel, b: AppModel) -> bool {
    b.link_open_request == a.link_open_request || (b.link_open_request matches Some(url)
        && text::safe_link(url))
}

/// What any input does: show something else, or propose a change.
pub open spec fn tame(a: AppModel, b: AppModel) -> bool {
    &&& view_only(a, b) || proposes(a, b)
    &&& asks_safely(a, b)
}

/// Lemma: messages and copies only show something.
proof fn lemma_quiet(a: AppModel, m: AppModel)
    requires
        view_only(a, m),
        asks_safely(a, m),
    ensures
        view_only(a, m.code_copied()) && asks_safely(a, m.code_copied()),
        forall|msg: Seq<char>| view_only(a, #[trigger] m.with_status(msg)),
        forall|msg: Seq<char>| asks_safely(a, #[trigger] m.with_status(msg)),
        forall|msg: Seq<char>| view_only(a, #[trigger] m.with_error(msg)),
        forall|msg: Seq<char>| asks_safely(a, #[trigger] m.with_error(msg)),
        forall|r: CopyReport| view_only(a, #[trigger] m.auto_copied(r)),
        forall|r: CopyReport| asks_safely(a, #[trigger] m.auto_copied(r)),
        forall|t: Seq<char>, r: CopyReport| view_only(a, #[trigger] m.copying(t, r)),
        forall|t: Seq<char>, r: CopyReport| asks_safely(a, #[trigger] m.copying(t, r)),
{
}

/// Lemma: moving the cursor only shows something.
proof fn lemma_moved(a: AppModel, m: AppModel)
    requires
        view_only(a, m),
        asks_safely(a, m),
    ensures
        forall|l: usize, i: usize| view_only(a, #[trigger] m.shown(l, i)),
        forall|l: usize, i: usize| asks_safely(a, #[trigger] m.shown(l, i)),
        forall|l: usize, i: usize| view_only(a, #[trigger] m.moved(l, i)),
        forall|l: usize, i: usize| asks_safely(a, #[trigger] m.moved(l, i)),
        forall|l: usize, i: usize| view_only(a, #[trigger] m.focused(l, i)),
        forall|l: usize, i: usize| asks_safely(a, #[trigger] m.focused(l, i)),
{
}

/// Lemma: going to a list only shows something.
proof fn lemma_at_list(m: AppModel, index: usize)
    ensures
        tame(m, m.at_list(index)),
        view_only(m, m.at_list(index)),
{
    lemma_moved(m, m);
    lemma_quiet(m, m);
    let item = match model::first_open(m.document.lists[index as int].items) {
        Some(i) => i as usize,
        None => 0,
    };
    lemma_quiet(m, m.shown(index, item));
}

/// Lemma: going to a card with a copy of its code only shows something.
proof fn lemma_focused_copied(m: AppModel, list: usize, item: usize)
    ensures
        tame(m, m.focused(list, item).auto_copied(CopyReport::OnSuccess)),
{
    lemma_moved(m, m);
    lemma_quiet(m, m.focused(list, item));
}

/// Lemma: going to a card with a message only shows something.
proof fn lemma_focused_told(m: AppModel, list: usize, item: usize, msg: Seq<char>)
    ensures
        tame(m, m.focused(list, item).with_status(msg).auto_copied(CopyReport::OnSuccess)),
{
    lemma_moved(m, m);
    lemma_quiet(m, m.focused(list, item));
    lemma_quiet(m, m.focused(list, item).with_status(msg));
}

/// Lemma: moving by one card only shows something.
proof fn lemma_steps(m: AppModel)
    ensures
        tame(m, m.next()),
        tame(m, m.prev()),
        view_only(m, m.next()),
{
    lemma_moved(m, m);
    let item = if m.current_item_index < app_spec::last_index(m.current_items().len()) {
        (m.current_item_index + 1) as usize
    } else {
        m.current_item_index
    };
    lemma_quiet(m, m.moved(m.current_list_index, item));
    lemma_quiet(
        m,
        m.moved(
            m.current_list_index,
            app_spec::capped_diff(m.current_item_index as int, 1) as usize,
        ),
    );
}

/// Lemma: moving by one card, over the ends of lists, only shows something.
proof fn lemma_walk(m: AppModel)
    ensures
        tame(m, m.forward()),
        tame(m, m.backward()),
{
    lemma_steps(m);
    lemma_at_list(m, (m.current_list_index + 1) as usize);
    lemma_at_list(m, (m.current_list_index - 1) as usize);
}

/// Lemma: going to other lists, tasks or ends only shows something.
proof fn lemma_jumps(m: AppModel)
    ensures
        tame(m, m.at_first()),
        tame(m, m.at_last()),
        tame(m, m.at_last_list()),
        tame(m, m.at_next_incomplete_task()),
{
    lemma_moved(m, m);
    lemma_quiet(m, m);
}

/// Lemma: going to another list with a task not done only shows something.
proof fn lemma_incomplete_lists(m: AppModel)
    ensures
        tame(m, m.at_next_incomplete_list()),
        tame(m, m.at_prev_incomplete_list()),
        tame(m, m.advanced_list()),
{
    lemma_quiet(m, m);
    if let Some(i) = m.next_incomplete() {
        lemma_at_list(m, i as usize);
    }
    if let Some(i) = m.prev_incomplete() {
        lemma_at_list(m, i as usize);
    }
}

/// Lemma: going to a sub-section only shows something.
proof fn lemma_sub_section(m: AppModel, forward: bool)
    ensures
        tame(m, m.at_sub_section(forward)),
{
    let starts = model::section_starts(m.current_items());
    let found = if forward {
        text::first_from(starts, app_spec::above(m.current_item_index), 0)
    } else {
        text::last_before(starts, app_spec::below(m.current_item_index), starts.len() as int)
    };
    lemma_quiet(m, m);
    if let Some(k) = found {
        lemma_focused_told(
            m,
            m.current_list_index,
            starts[k],
            "Sub-section: "@ + m.current_items()[starts[k] as int].section@.last().text@,
        );
    }
}

/// Lemma: cycling through matches only shows something.
proof fn lemma_search_cycled(m: AppModel, forward: bool)
    ensures
        tame(m, m.search_cycled(forward)),
{
    lemma_quiet(m, m);
    if let Some(query) = m.search_last {
        let found = m.matches(query);
        let target = if forward {
            app_spec::match_after(found, m.cursor())
        } else {
            app_spec::match_before(found, m.cursor())
        };
        if found.len() > 0 {
            lemma_focused_told(
                m,
                found[target].0,
                found[target].1,
                "Match "@ + text::decimal((target + 1) as nat) + "/"@ + text::decimal(found.len()),
            );
        }
    }
}

/// Lemma: the search only shows something.
proof fn lemma_search_key(m: AppModel, code: KeyCode, ctrl: bool)
    ensures
        tame(m, m.search_key(code, ctrl)),
{
    lemma_moved(m, m);
    match code {
        KeyCode::Enter => {
            let query = m.search_query;
            let n = m.matches(query).len();
            let closed = AppModel {
                search_last: if query.len() > 0 {
                    Some(query)
                } else {
                    None
                },
                screen: Screen::Checklist,
                ..m
            };
            lemma_quiet(m, closed);
            let reported = if query.len() == 0 {
                closed
            } else if n == 0 {
                closed.with_error("No matches for \""@ + query + "\""@)
            } else if n == 1 {
                closed.with_status("Match 1/1"@)
            } else {
                closed.with_status("Match 1/"@ + text::decimal(n) + " · n/N to cycle"@)
            };
            lemma_quiet(m, reported);
        },
        KeyCode::Backspace => {
            lemma_moved(m, AppModel { search_query: m.search_query.drop_last(), ..m });
        },
        KeyCode::Char(c) => {
            lemma_moved(m, AppModel { search_query: m.search_query.push(c), ..m });
        },
        _ => {},
    }
}

/// Lemma: picking a card only shows something.
proof fn lemma_picker_key(m: AppModel, code: KeyCode, ctrl: bool)
    ensures
        tame(m, m.picker_key(code, ctrl)),
{
    if code == KeyCode::Enter {
        let found = m.picker_places();
        if m.picker_selection < found.len() {
            let place = found[m.picker_selection as int];
            lemma_focused_copied(m, place.0, place.1);
        }
    } else {
        assert forall|delta: int| tame(m, #[trigger] m.picker_moved(delta)) by {}
        assert forall|q: Seq<char>| tame(m, #[trigger] m.with_filter(q)) by {}
    }
}

/// Lemma: a link is opened only if it is safe.
proof fn lemma_link_opened(m: AppModel, url: Seq<char>)
    ensures
        tame(m, m.link_opened(url)),
{
}

/// Lemma: links are opened only if they are safe.
proof fn lemma_links(m: AppModel)
    ensures
        tame(m, m.current_link_opened()),
        forall|n: int| tame(m, #[trigger] m.link_number_opened(n)),
{
    lemma_quiet(m, m);
    assert forall|url: Seq<char>| tame(m, #[trigger] m.link_opened(url)) by {
        lemma_link_opened(m, url);
    }
    assert forall|n: int| tame(m, #[trigger] m.link_number_opened(n)) by {}
}

/// Lemma: bringing a task into a state proposes that change.
proof fn lemma_task_set(
    m: AppModel,
    list: usize,
    item: usize,
    state: TaskState,
    then_do: AfterWriteModel,
)
    requires
        !m.file_deleted,
        list < m.document.lists.len(),
        item < m.document.lists[list as int].items.len(),
        m.document.lists[list as int].items[item as int].kind is Checkbox,
    ensures
        tame(m, m.task_set(list, item, state, then_do)),
{
    app_laws::lemma_set_kind(m, list, item, state);
}

/// Lemma: toggling and starting the current task propose a change, or only
/// show something.
proof fn lemma_toggled(m: AppModel)
    ensures
        tame(m, m.toggled()),
        tame(m, m.started()),
{
    lemma_quiet(m, m);
    lemma_walk(m);
    if let Some(item) = m.current_item() {
        if let ItemKind::Checkbox(state) = item.kind {
            if !m.file_deleted {
                let done = app_spec::toggled_done(state);
                lemma_task_set(
                    m,
                    m.current_list_index,
                    m.current_item_index,
                    done,
                    AfterWriteModel::Toggle { done: done == TaskState::Done },
                );
                lemma_task_set(
                    m,
                    m.current_list_index,
                    m.current_item_index,
                    app_spec::toggled_started(state),
                    AfterWriteModel::Start,
                );
            }
        }
    }
}

/// Lemma: toggling a task of the overview proposes a change, or only shows
/// something.
proof fn lemma_item_toggled(m: AppModel, list: usize, item: usize)
    ensures
        tame(m, m.item_toggled(list, item)),
{
    lemma_quiet(m, m);
    if let Some(card) = model::item_at(m.document.lists, list, item) {
        if let ItemKind::Checkbox(state) = card.kind {
            if !m.file_deleted {
                let done = app_spec::toggled_done(state);
                lemma_task_set(
                    m,
                    list,
                    item,
                    done,
                    AfterWriteModel::Overview { done: done == TaskState::Done },
                );
            }
        }
    }
}

/// Lemma: resetting proposes a change, or only shows something.
proof fn lemma_all_reset(m: AppModel)
    ensures
        tame(m, m.all_reset()),
        tame(m, AppModel { should_quit: true, ..m.all_reset() }),
{
    lemma_quiet(m, m);
    app_laws::lemma_cleared(m);
}

/// Lemma: undoing and redoing propose a change, or only show something.
proof fn lemma_undone(m: AppModel)
    ensures
        tame(m, m.undone()),
        tame(m, m.redone()),
{
    lemma_quiet(m, m);
    if m.undo_stack.len() > 0 {
        app_laws::lemma_restored(m, m.undo_stack.last());
    }
    if m.redo_stack.len() > 0 {
        app_laws::lemma_restored(m, m.redo_stack.last());
    }
}

/// Lemma: dialogs and overlays only show something.
proof fn lemma_dialogs(m: AppModel)
    ensures
        tame(m, m.helped()),
        tame(m, m.picking()),
        tame(m, m.leaving()),
        tame(m, m.reset_requested()),
        tame(m, m.searching()),
{
}

/// Lemma: a key in a dialog is tame.
proof fn lemma_confirm_key(m: AppModel, code: KeyCode)
    ensures
        tame(m, m.confirm_key(code)),
{
    lemma_all_reset(m);
}

/// Lemma: a key in the help is tame.
proof fn lemma_help_key(m: AppModel, code: KeyCode, ctrl: bool)
    ensures
        tame(m, m.help_key(code, ctrl)),
{
}

/// Lemma: a key that scrolls the card is tame.
proof fn lemma_scroll_key(m: AppModel, code: KeyCode, ctrl: bool)
    ensures
        m.scroll_key(code, ctrl) matches Some(after) ==> tame(m, after),
{
}

/// Lemma: a key that means the same everywhere is tame.
proof fn lemma_global_key(m: AppModel, code: KeyCode, ctrl: bool)
    ensures
        m.global_key(code, ctrl) matches Some(after) ==> tame(m, after),
{
    match code {
        KeyCode::Char('?') | KeyCode::Char('T') | KeyCode::Char('q') | KeyCode::Esc
        | KeyCode::Char('R') => {
            lemma_dialogs(m);
        },
        KeyCode::Char('e') => {},
        KeyCode::Char('u') | KeyCode::Char('r') => {
            lemma_undone(m);
        },
        KeyCode::Tab => {
            lemma_jumps(m);
        },
        KeyCode::Char('L') | KeyCode::Char('H') => {
            lemma_incomplete_lists(m);
        },
        KeyCode::Char(c) => {
            lemma_at_list(m, (c as int - '1' as int) as usize);
        },
        _ => {},
    }
}

/// Lemma: a key on the checklist is tame.
proof fn lemma_checklist_key(m: AppModel, code: KeyCode, pending_g: bool)
    ensures
        tame(m, m.checklist_key(code, pending_g)),
{
    match code {
        KeyCode::Char('h') | KeyCode::Left | KeyCode::Char('k') | KeyCode::Up
        | KeyCode::Char('l') | KeyCode::Right | KeyCode::Char('j') | KeyCode::Down => {
            lemma_walk(m);
        },
        KeyCode::Char('g') | KeyCode::Char('G') => {
            lemma_jumps(m);
        },
        KeyCode::Char('}') => {
            lemma_sub_section(m, true);
        },
        KeyCode::Char('{') => {
            lemma_sub_section(m, false);
        },
        KeyCode::Char('/') => {
            lemma_dialogs(m);
        },
        KeyCode::Char('n') => {
            lemma_search_cycled(m, true);
        },
        KeyCode::Char('N') => {
            lemma_search_cycled(m, false);
        },
        KeyCode::Char(' ') | KeyCode::Enter | KeyCode::Char('s') => {
            lemma_toggled(m);
        },
        KeyCode::Char('y') => {
            lemma_quiet(m, m);
        },
        KeyCode::Char('o') => {
            lemma_links(m);
        },
        _ => {},
    }
}

/// Lemma: a key on the summary of a list or a document is tame.
proof fn lemma_summary_key(m: AppModel, code: KeyCode)
    ensures
        tame(m, m.list_complete_key(code)),
        tame(m, m.all_complete_key(code)),
{
    lemma_incomplete_lists(m);
    lemma_jumps(m);
}

/// Lemma: a key on any screen is tame.
proof fn lemma_screen_key(m: AppModel, code: KeyCode, ctrl: bool, pending_g: bool)
    ensures
        tame(m, m.screen_key(code, ctrl, pending_g)),
{
    match m.screen {
        Screen::ConfirmReset | Screen::ConfirmQuitReset => {
            lemma_confirm_key(m, code);
        },
        Screen::Help => {
            lemma_help_key(m, code, ctrl);
        },
        Screen::Search => {
            lemma_search_key(m, code, ctrl);
        },
        Screen::ListPicker => {
            lemma_picker_key(m, code, ctrl);
        },
        Screen::Checklist => {
            lemma_scroll_key(m, code, ctrl);
            lemma_global_key(m, code, ctrl);
            lemma_checklist_key(m, code, pending_g);
        },
        Screen::ListComplete | Screen::AllComplete => {
            lemma_global_key(m, code, ctrl);
            lemma_summary_key(m, code);
        },
    }
}

/// Lemma: what is tame once the message is gone is tame.
proof fn lemma_after_clearing(m: AppModel, after: AppModel)
    requires
        tame(m.without_chords(), after),
    ensures
        tame(m, after),
{
}

/// Law: a key shows something else, or changes the states of tasks and nothing
/// else of the document; such a change waits to be written, the states from
/// before it are kept, and there is none where the file is gone. Only web and
/// mail links are asked to be opened.
pub proof fn law_keys_show_or_propose(m: AppModel, code: KeyCode, modifiers: KeyModifiers)
    ensures
        tame(m, m.key(code, modifiers)),
{
    let start = m.without_chords();
    lemma_links(start);
    lemma_screen_key(start, code, modifiers.control, m.pending_g);
    lemma_after_clearing(m, m.key(code, modifiers));
}

/// Lemma: a click on a row of the overview is tame.
proof fn lemma_row_clicked(m: AppModel, target: OverviewTarget)
    ensures
        tame(m, m.row_clicked(target)),
{
    match target {
        OverviewTarget::List(list) => {
            lemma_at_list(m, list);
        },
        OverviewTarget::Item(list, item) => {
            lemma_focused_copied(m, list, item);
        },
        OverviewTarget::Toggle(list, item) => {
            lemma_item_toggled(m, list, item);
        },
    }
}

/// Law: the mouse, too, shows something else or proposes a change; the wheel
/// only shows.
pub proof fn law_mouse_shows_or_proposes(m: AppModel, col: u16, row: u16)
    ensures
        tame(m, m.clicked(col, row)),
        tame(m, m.wheel_up()),
        tame(m, m.wheel_down()),
{
    let cleared = m.without_chords();
    if let Some(target) = m.overview_hit(col, row) {
        lemma_row_clicked(cleared, target);
    }
    lemma_quiet(cleared, cleared);
    assert(tame(cleared, cleared.card_clicked(col, row)));
    lemma_steps(cleared);
    lemma_after_clearing(m, m.clicked(col, row));
    lemma_after_clearing(m, m.wheel_up());
    lemma_after_clearing(m, m.wheel_down());
}

/// Law: the help, the go-to-task overlay and the question about a reset, opened
/// on any screen and left by `Esc`, bring that screen back, and the cursor is
/// where it was.
pub proof fn law_dialogs_return(m: AppModel, ctrl: bool)
    ensures
        m.helped().help_key(KeyCode::Esc, ctrl).screen == m.screen,
        m.helped().help_key(KeyCode::Esc, ctrl).cursor() == m.cursor(),
        m.picking().picker_key(KeyCode::Esc, ctrl).screen == m.screen,
        m.picking().picker_key(KeyCode::Esc, ctrl).cursor() == m.cursor(),
        model::any_progress(m.document.lists) ==> m.reset_requested().confirm_key(
            KeyCode::Esc,
        ).screen == m.screen,
        m.reset_requested().confirm_key(KeyCode::Esc).cursor() == m.cursor(),
{
}

} // verus!
