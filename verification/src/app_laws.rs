//! Laws of the application as a whole: what every input keeps, and what its
//! actions promise together.

use vstd::prelude::*;

use crate::app_spec::{DiskModel, ParsedModel};
use crate::app_state::{
    AfterWriteModel, AppModel, CopyReport, OverviewTarget, Screen, SyncModel, UNDO_HISTORY_CAP,
};
use crate::app_write::FileStat;
use crate::clipboard::CopyOutcome;
use crate::input::{KeyCode, KeyModifiers};
use crate::model::{DocumentModel, Item, ItemKind, ListModel, TaskState};
use crate::text::ContentHash;
use crate::{app_spec, document, model, order, text};

verus! {

// ----- The invariant ---------------------------------------------------

impl AppModel {
    /// The state is valid, and its document can be counted in machine numbers.
    pub open spec fn valid(self) -> bool {
        self.wf() && order::countable(self.document.lists)
    }
}

/// Lemma: moving to a valid place keeps the state valid.
proof fn lemma_shown(m: AppModel, list: usize, item: usize)
    requires
        m.valid(),
        m.valid_place(list, item),
    ensures
        m.shown(list, item).valid(),
        m.moved(list, item).valid(),
{
}

/// Lemma: messages and copies do not matter for validity.
proof fn lemma_quiet(m: AppModel)
    requires
        m.valid(),
    ensures
        m.without_chords().valid(),
        m.code_copied().valid(),
        m.refused_as_deleted().valid(),
        forall|msg: Seq<char>| (#[trigger] m.with_status(msg)).valid(),
        forall|msg: Seq<char>| (#[trigger] m.with_error(msg)).valid(),
        forall|r: CopyReport| (#[trigger] m.auto_copied(r)).valid(),
        forall|t: Seq<char>, r: CopyReport| (#[trigger] m.copying(t, r)).valid(),
{
    assert forall|msg: Seq<char>| (#[trigger] m.with_status(msg)).valid() by {}
    assert forall|msg: Seq<char>| (#[trigger] m.with_error(msg)).valid() by {}
    assert forall|t: Seq<char>, r: CopyReport| (#[trigger] m.copying(t, r)).valid() by {}
    assert forall|r: CopyReport| (#[trigger] m.auto_copied(r)).valid() by {}
}

/// Lemma: going to a list keeps the state valid.
proof fn lemma_at_list(m: AppModel, index: usize)
    requires
        m.valid(),
    ensures
        m.at_list(index).valid(),
{
    if index < m.document.lists.len() {
        let items = m.document.lists[index as int].items;
        text::lemma_first_from(items, model::open_item(), 0);
        let item = match model::first_open(items) {
            Some(i) => i as usize,
            None => 0,
        };
        lemma_shown(m, index, item);
        lemma_quiet(m.shown(index, item));
    } else {
        lemma_quiet(m);
    }
}

/// Lemma: going to a card keeps the state valid.
proof fn lemma_focused(m: AppModel, list: usize, item: usize)
    requires
        m.valid(),
    ensures
        m.focused(list, item).valid(),
{
    if list < m.document.lists.len() && m.document.lists[list as int].items.len() > 0 {
        let last = app_spec::last_index(m.document.lists[list as int].items.len());
        lemma_shown(
            m,
            list,
            if item < last {
                item
            } else {
                last
            },
        );
    }
}

/// Lemma: moving on by one card in the list keeps the state valid.
proof fn lemma_next(m: AppModel)
    requires
        m.valid(),
    ensures
        m.next().valid(),
{
    let item = if m.current_item_index < app_spec::last_index(m.current_items().len()) {
        (m.current_item_index + 1) as usize
    } else {
        m.current_item_index
    };
    lemma_shown(m, m.current_list_index, item);
    lemma_quiet(m.moved(m.current_list_index, item));
}

/// Lemma: moving back by one card in the list keeps the state valid.
proof fn lemma_prev(m: AppModel)
    requires
        m.valid(),
    ensures
        m.prev().valid(),
{
    let item = app_spec::capped_diff(m.current_item_index as int, 1) as usize;
    lemma_shown(m, m.current_list_index, item);
    lemma_quiet(m.moved(m.current_list_index, item));
}

/// Lemma: moving on by one card keeps the state valid.
proof fn lemma_forward(m: AppModel)
    requires
        m.valid(),
    ensures
        m.forward().valid(),
{
    if m.current_item_index < app_spec::last_index(m.current_items().len()) {
        lemma_next(m);
    } else if m.current_list_index + 1 < m.document.lists.len() {
        lemma_at_list(m, (m.current_list_index + 1) as usize);
    }
}

/// Lemma: moving back by one card keeps the state valid.
proof fn lemma_backward(m: AppModel)
    requires
        m.valid(),
    ensures
        m.backward().valid(),
{
    if m.current_item_index > 0 {
        lemma_prev(m);
    } else if m.current_list_index > 0 {
        lemma_at_list(m, (m.current_list_index - 1) as usize);
    }
}

/// Lemma: going to either end of the document keeps the state valid.
proof fn lemma_ends(m: AppModel)
    requires
        m.valid(),
    ensures
        m.at_first().valid(),
        m.at_last().valid(),
        m.at_last_list().valid(),
{
    lemma_shown(m, 0, 0);
    let last = (m.document.lists.len() - 1) as usize;
    lemma_shown(m, last, app_spec::last_index(m.document.lists.last().items.len()));
}

/// Lemma: going to another list with a task not done keeps the state valid.
proof fn lemma_incomplete_lists(m: AppModel)
    requires
        m.valid(),
    ensures
        m.at_next_incomplete_list().valid(),
        m.at_prev_incomplete_list().valid(),
        m.advanced_list().valid(),
{
    lemma_quiet(m);
    if let Some(i) = m.next_incomplete() {
        lemma_at_list(m, i as usize);
    }
    if let Some(i) = m.prev_incomplete() {
        lemma_at_list(m, i as usize);
    }
}

/// Lemma: every place ahead is a card.
pub proof fn lemma_place_ahead(m: AppModel, step: int)
    requires
        m.valid(),
        model::places(m.document.lists, model::any_item()).len() > 0,
    ensures
        order::kept_place(m.document.lists, model::any_item(), m.place_ahead(step)),
{
    let all = model::places(m.document.lists, model::any_item());
    order::law_places_are_exact(m.document.lists, model::any_item());
    let start = match text::first_from(all, app_spec::equal_place(m.cursor()), 0) {
        Some(i) => i,
        None => 0,
    };
    let k = (start + step) % (all.len() as int);
    assert(0 <= k < all.len());
    assert(order::kept_place(m.document.lists, model::any_item(), all[k]));
}

/// Lemma: going to the next task not done keeps the state valid.
proof fn lemma_next_task(m: AppModel)
    requires
        m.valid(),
    ensures
        m.at_next_incomplete_task().valid(),
{
    lemma_quiet(m);
    if exists|step: int| m.first_open_ahead(step) {
        let step = choose|step: int| m.first_open_ahead(step);
        lemma_place_ahead(m, step);
        lemma_shown(m, m.place_ahead(step).0, m.place_ahead(step).1);
    }
}

/// Lemma: going to a sub-section keeps the state valid.
proof fn lemma_sub_section(m: AppModel, forward: bool)
    requires
        m.valid(),
    ensures
        m.at_sub_section(forward).valid(),
{
    let starts = model::section_starts(m.current_items());
    let found = if forward {
        text::first_from(starts, app_spec::above(m.current_item_index), 0)
    } else {
        text::last_before(starts, app_spec::below(m.current_item_index), starts.len() as int)
    };
    lemma_quiet(m);
    if let Some(k) = found {
        let there = m.focused(m.current_list_index, starts[k]);
        lemma_focused(m, m.current_list_index, starts[k]);
        lemma_quiet(there);
        let msg = "Sub-section: "@ + m.current_items()[starts[k] as int].section@.last().text@;
        lemma_quiet(there.with_status(msg));
    }
}

/// Lemma: the search keeps the state valid.
proof fn lemma_search_followed(m: AppModel)
    requires
        m.valid(),
    ensures
        m.search_followed().valid(),
{
    let found = m.matches(m.search_query);
    order::law_places_are_exact(m.document.lists, model::found_by_search(m.search_query));
    if found.len() > 0 {
        assert(order::kept_place(
            m.document.lists,
            model::found_by_search(m.search_query),
            found[0],
        ));
        lemma_shown(m, found[0].0, found[0].1);
    }
}

/// Lemma: changing the query keeps the state valid.
proof fn lemma_with_query(m: AppModel, query: Seq<char>)
    requires
        m.valid(),
    ensures
        m.with_query(query).valid(),
{
    lemma_search_followed(AppModel { search_query: query, ..m });
}

/// Lemma: ending a search keeps the state valid.
proof fn lemma_search_ended(m: AppModel)
    requires
        m.valid(),
        m.screen == Screen::Search,
    ensures
        m.search_committed().valid(),
        m.search_cancelled().valid(),
{
    lemma_shown(m, m.search_origin.0, m.search_origin.1);
    let query = m.search_query;
    let n = m.matches(query).len();
    let closed = AppModel {
        search_last: if query.len() > 0 {
            Some(query)
        } else {
            None
        },
        screen: Screen::Checklist,
        ..m
    };
    lemma_quiet(closed);
    let reported = if query.len() == 0 {
        closed
    } else if n == 0 {
        closed.with_error("No matches for \""@ + query + "\""@)
    } else if n == 1 {
        closed.with_status("Match 1/1"@)
    } else {
        closed.with_status("Match 1/"@ + text::decimal(n) + " · n/N to cycle"@)
    };
    lemma_quiet(reported);
}

/// Lemma: cycling through the matches keeps the state valid.
proof fn lemma_search_cycled(m: AppModel, forward: bool)
    requires
        m.valid(),
    ensures
        m.search_cycled(forward).valid(),
{
    lemma_quiet(m);
    if let Some(query) = m.search_last {
        let found = m.matches(query);
        let target = if forward {
            app_spec::match_after(found, m.cursor())
        } else {
            app_spec::match_before(found, m.cursor())
        };
        if found.len() > 0 {
            let there = m.focused(found[target].0, found[target].1);
            lemma_focused(m, found[target].0, found[target].1);
            lemma_quiet(there);
            let msg = "Match "@ + text::decimal((target + 1) as nat) + "/"@ + text::decimal(
                found.len(),
            );
            lemma_quiet(there.with_status(msg));
        }
    }
}

/// Lemma: picking a card keeps the state valid.
proof fn lemma_picked(m: AppModel)
    requires
        m.valid(),
        app_spec::dialog_screen(m.screen),
    ensures
        m.picked().valid(),
{
    let found = m.picker_places();
    if m.picker_selection < found.len() {
        let place = found[m.picker_selection as int];
        lemma_focused(m, place.0, place.1);
        lemma_quiet(m.focused(place.0, place.1));
    }
}

/// Lemma: opening links keeps the state valid.
proof fn lemma_links(m: AppModel)
    requires
        m.valid(),
    ensures
        m.current_link_opened().valid(),
        forall|n: int| (#[trigger] m.link_number_opened(n)).valid(),
{
    assert forall|url: Seq<char>| (#[trigger] m.link_opened(url)).valid() by {
        lemma_quiet(m);
    }
    lemma_quiet(m);
    assert forall|n: int| (#[trigger] m.link_number_opened(n)).valid() by {}
}

// ----- Only task states change -----------------------------------------

/// The cards differ at most in the state of the task that both are.
pub open spec fn same_but_state(a: Item, b: Item) -> bool {
    &&& b == (Item { kind: b.kind, ..a })
    &&& a.kind is Checkbox <==> b.kind is Checkbox
}

/// The lists differ at most in the states of their tasks.
pub open spec fn same_list_but_states(a: ListModel, b: ListModel) -> bool {
    &&& a.title == b.title
    &&& a.banner == b.banner
    &&& a.items.len() == b.items.len()
    &&& forall|j: int| 0 <= j < a.items.len() ==> same_but_state(#[trigger] a.items[j], b.items[j])
}

/// The documents differ at most in the states of their tasks.
pub open spec fn same_but_states(a: DocumentModel, b: DocumentModel) -> bool {
    &&& b == (DocumentModel { lists: b.lists, ..a })
    &&& a.lists.len() == b.lists.len()
    &&& forall|i: int|
        0 <= i < a.lists.len() ==> same_list_but_states(#[trigger] a.lists[i], b.lists[i])
}

/// Lemma: setting a task's state changes nothing else.
pub proof fn lemma_set_kind(m: AppModel, list: usize, item: usize, state: TaskState)
    requires
        list < m.document.lists.len(),
        item < m.document.lists[list as int].items.len(),
        m.document.lists[list as int].items[item as int].kind is Checkbox,
    ensures
        same_but_states(
            m.document,
            m.with_kind(list, item, ItemKind::Checkbox(state)).document,
        ),
{
}

/// Lemma: applying a snapshot changes nothing but states.
pub proof fn lemma_restored(m: AppModel, snapshot: Seq<(usize, TaskState)>)
    ensures
        same_but_states(m.document, m.with_states(snapshot).document),
{
    let old_lists = m.document.lists;
    let new_lists = model::restored(old_lists, snapshot);
    assert forall|i: int| 0 <= i < old_lists.len() implies same_list_but_states(
        #[trigger] old_lists[i],
        new_lists[i],
    ) by {
        assert(new_lists[i] == model::restored_list(old_lists[i], snapshot));
    }
}

/// Lemma: resetting changes nothing but states.
pub proof fn lemma_cleared(m: AppModel)
    ensures
        same_but_states(m.document, m.with_lists(model::cleared(m.document.lists)).document),
{
    let old_lists = m.document.lists;
    let new_lists = model::cleared(old_lists);
    assert forall|i: int| 0 <= i < old_lists.len() implies same_list_but_states(
        #[trigger] old_lists[i],
        new_lists[i],
    ) by {
        assert(new_lists[i] == model::cleared_list(old_lists[i]));
    }
}

/// Lemma: other states of the tasks do not matter for validity.
proof fn lemma_states_do_not_matter(m: AppModel, lists: Seq<ListModel>)
    requires
        m.valid(),
        same_but_states(m.document, m.with_lists(lists).document),
    ensures
        m.with_lists(lists).valid(),
{
    let a = m.document.lists;
    assert forall|l: usize, i: usize| m.valid_place(l, i) implies #[trigger] m.with_lists(
        lists,
    ).valid_place(l, i) by {
        assert(same_list_but_states(a[l as int], lists[l as int]));
    }
    assert forall|i: int| 0 <= i < lists.len() implies (#[trigger] lists[i]).items.len()
        <= usize::MAX by {
        assert(same_list_but_states(a[i], lists[i]));
    }
}

/// Lemma: bringing a task into a state keeps the state of the application
/// valid.
proof fn lemma_task_set(
    m: AppModel,
    list: usize,
    item: usize,
    state: TaskState,
    then_do: AfterWriteModel,
)
    requires
        m.valid(),
        m.settled(),
        list < m.document.lists.len(),
        item < m.document.lists[list as int].items.len(),
        m.document.lists[list as int].items[item as int].kind is Checkbox,
        !(then_do is History),
    ensures
        m.task_set(list, item, state, then_do).valid(),
{
    let kind = ItemKind::Checkbox(state);
    lemma_set_kind(m, list, item, state);
    lemma_states_do_not_matter(
        m,
        model::set_kind(m.document.lists, list as int, item as int, kind),
    );
}

/// Lemma: changing tasks keeps the state valid.
proof fn lemma_toggled(m: AppModel)
    requires
        m.valid(),
        m.settled(),
    ensures
        m.toggled().valid(),
        m.started().valid(),
{
    lemma_quiet(m);
    lemma_forward(m);
    if let Some(item) = m.current_item() {
        if let ItemKind::Checkbox(state) = item.kind {
            let done = app_spec::toggled_done(state);
            lemma_task_set(
                m,
                m.current_list_index,
                m.current_item_index,
                done,
                AfterWriteModel::Toggle { done: done == TaskState::Done },
            );
            lemma_task_set(
                m,
                m.current_list_index,
                m.current_item_index,
                app_spec::toggled_started(state),
                AfterWriteModel::Start,
            );
        }
    }
}

/// Lemma: toggling a task of the overview keeps the state valid.
proof fn lemma_item_toggled(m: AppModel, list: usize, item: usize)
    requires
        m.valid(),
        m.settled(),
    ensures
        m.item_toggled(list, item).valid(),
{
    lemma_quiet(m);
    if let Some(card) = model::item_at(m.document.lists, list, item) {
        if let ItemKind::Checkbox(state) = card.kind {
            let done = app_spec::toggled_done(state);
            lemma_task_set(
                m,
                list,
                item,
                done,
                AfterWriteModel::Overview { done: done == TaskState::Done },
            );
        }
    }
}

/// Lemma: resetting keeps the state valid.
proof fn lemma_all_reset(m: AppModel)
    requires
        m.valid(),
        m.settled(),
    ensures
        m.all_reset().valid(),
        (AppModel { should_quit: true, ..m.all_reset() }).valid(),
{
    lemma_quiet(m);
    lemma_cleared(m);
    lemma_states_do_not_matter(m, model::cleared(m.document.lists));
}

/// Lemma: applying a step of the history keeps the state valid.
proof fn lemma_history_applied(m: AppModel, redo: bool, snapshot: Seq<(usize, TaskState)>)
    requires
        m.valid(),
        m.settled(),
        m.history_size() + 1 <= UNDO_HISTORY_CAP,
    ensures
        m.history_applied(redo, snapshot).valid(),
{
    lemma_restored(m, snapshot);
    lemma_states_do_not_matter(m, model::restored(m.document.lists, snapshot));
}

/// Lemma: undoing and redoing keep the state valid.
proof fn lemma_undone(m: AppModel)
    requires
        m.valid(),
        m.settled(),
    ensures
        m.undone().valid(),
        m.redone().valid(),
{
    lemma_quiet(m);
    if m.undo_stack.len() > 0 {
        let popped = AppModel { undo_stack: m.undo_stack.drop_last(), ..m };
        lemma_history_applied(popped, false, m.undo_stack.last());
    }
    if m.redo_stack.len() > 0 {
        let popped = AppModel { redo_stack: m.redo_stack.drop_last(), ..m };
        lemma_history_applied(popped, true, m.redo_stack.last());
    }
}

// ----- Input keeps the invariant ---------------------------------------

/// Lemma: a key in a dialog keeps the state valid.
proof fn lemma_confirm_key(m: AppModel, code: KeyCode)
    requires
        m.valid(),
        m.settled(),
        app_spec::dialog_screen(m.screen),
    ensures
        m.confirm_key(code).valid(),
{
    lemma_all_reset(m);
}

/// Lemma: a key in the help keeps the state valid.
#[verifier::rlimit(30)]
proof fn lemma_help_key(m: AppModel, code: KeyCode, ctrl: bool)
    requires
        m.valid(),
        app_spec::dialog_screen(m.screen),
    ensures
        m.help_key(code, ctrl).valid(),
{
}

/// Lemma: a key in the search keeps the state valid.
proof fn lemma_search_key(m: AppModel, code: KeyCode, ctrl: bool)
    requires
        m.valid(),
        m.screen == Screen::Search,
    ensures
        m.search_key(code, ctrl).valid(),
{
    match code {
        KeyCode::Esc | KeyCode::Enter => {
            lemma_search_ended(m);
        },
        KeyCode::Backspace => {
            lemma_search_followed(m);
            lemma_with_query(m, m.search_query.drop_last());
        },
        KeyCode::Char(c) => {
            lemma_with_query(m, m.search_query.push(c));
        },
        _ => {},
    }
}

/// Lemma: moving the highlight, or filtering, keeps the state valid.
proof fn lemma_picker_moved(m: AppModel, delta: int, query: Seq<char>)
    requires
        m.valid(),
        app_spec::dialog_screen(m.screen),
    ensures
        m.picker_moved(delta).valid(),
        m.with_filter(query).valid(),
        m.on_screen(m.screen_before_confirm).valid(),
{
}

/// Lemma: a key in the go-to-task overlay keeps the state valid.
proof fn lemma_picker_key(m: AppModel, code: KeyCode, ctrl: bool)
    requires
        m.valid(),
        app_spec::dialog_screen(m.screen),
    ensures
        m.picker_key(code, ctrl).valid(),
{
    let q = m.picker_query;
    let after = m.picker_key(code, ctrl);
    if code == KeyCode::Esc {
        lemma_picker_moved(m, 0, q);
    } else if code == KeyCode::Enter {
        lemma_picked(m);
    } else if code == KeyCode::Up || (code == KeyCode::Char('p') && ctrl) {
        lemma_picker_moved(m, -1, q);
        assert(after == m.picker_moved(-1));
    } else if code == KeyCode::Down || (code == KeyCode::Char('n') && ctrl) {
        lemma_picker_moved(m, 1, q);
        assert(after == m.picker_moved(1));
    } else if code == KeyCode::Char('d') && ctrl {
        lemma_picker_moved(m, m.picker_half(), q);
        assert(after == m.picker_moved(m.picker_half()));
    } else if code == KeyCode::Char('u') && ctrl {
        lemma_picker_moved(m, -m.picker_half(), q);
        assert(after == m.picker_moved(-m.picker_half()));
    } else if code == KeyCode::Backspace {
        let shorter = if q.len() == 0 {
            q
        } else {
            q.drop_last()
        };
        lemma_picker_moved(m, 0, shorter);
        assert(after == m.with_filter(shorter));
    } else if let KeyCode::Char(c) = code {
        lemma_picker_moved(m, 0, q.push(c));
        assert(after == m.with_filter(q.push(c)) || after == m);
    }
}

/// Lemma: a key that scrolls the card keeps the state valid.
proof fn lemma_scroll_key(m: AppModel, code: KeyCode, ctrl: bool)
    requires
        m.valid(),
    ensures
        m.scroll_key(code, ctrl) matches Some(after) ==> after.valid(),
{
}

/// Lemma: opening a dialog or an overlay keeps the state valid.
proof fn lemma_dialogs(m: AppModel)
    requires
        m.valid(),
    ensures
        m.helped().valid(),
        m.picking().valid(),
        m.leaving().valid(),
        m.reset_requested().valid(),
        m.searching().valid(),
{
    lemma_quiet(m);
}

/// Lemma: a key that means the same everywhere keeps the state valid.
proof fn lemma_global_key(m: AppModel, code: KeyCode, ctrl: bool)
    requires
        m.valid(),
        m.settled(),
    ensures
        m.global_key(code, ctrl) matches Some(after) ==> after.valid(),
{
    match code {
        KeyCode::Char('?') | KeyCode::Char('T') | KeyCode::Char('q') | KeyCode::Esc
        | KeyCode::Char('R') => {
            lemma_dialogs(m);
        },
        KeyCode::Char('e') => {},
        KeyCode::Char('u') | KeyCode::Char('r') => {
            lemma_undone(m);
        },
        KeyCode::Tab => {
            lemma_next_task(m);
        },
        KeyCode::Char('L') | KeyCode::Char('H') => {
            lemma_incomplete_lists(m);
        },
        KeyCode::Char(c) => {
            lemma_at_list(m, (c as int - '1' as int) as usize);
        },
        _ => {},
    }
}

/// Lemma: a key on the checklist keeps the state valid.
proof fn lemma_checklist_key(m: AppModel, code: KeyCode, pending_g: bool)
    requires
        m.valid(),
        m.settled(),
        m.screen == Screen::Checklist,
    ensures
        m.checklist_key(code, pending_g).valid(),
{
    match code {
        KeyCode::Char('h') | KeyCode::Left | KeyCode::Char('k') | KeyCode::Up => {
            lemma_backward(m);
        },
        KeyCode::Char('l') | KeyCode::Right | KeyCode::Char('j') | KeyCode::Down => {
            lemma_forward(m);
        },
        KeyCode::Char('g') | KeyCode::Char('G') => {
            lemma_ends(m);
        },
        KeyCode::Char('}') => {
            lemma_sub_section(m, true);
        },
        KeyCode::Char('{') => {
            lemma_sub_section(m, false);
        },
        KeyCode::Char('/') => {
            lemma_dialogs(m);
        },
        KeyCode::Char('n') => {
            lemma_search_cycled(m, true);
        },
        KeyCode::Char('N') => {
            lemma_search_cycled(m, false);
        },
        KeyCode::Char(' ') | KeyCode::Enter | KeyCode::Char('s') => {
            lemma_toggled(m);
        },
        KeyCode::Char('y') => {
            lemma_quiet(m);
        },
        KeyCode::Char('o') => {
            lemma_links(m);
        },
        _ => {},
    }
}

/// Lemma: a key on the summary of a list or a document keeps the state valid.
proof fn lemma_summary_key(m: AppModel, code: KeyCode)
    requires
        m.valid(),
    ensures
        m.list_complete_key(code).valid(),
        m.all_complete_key(code).valid(),
{
    lemma_incomplete_lists(m);
    lemma_ends(m);
}

/// Lemma: a key on any screen keeps the state valid.
proof fn lemma_screen_key(m: AppModel, code: KeyCode, ctrl: bool, pending_g: bool)
    requires
        m.valid(),
        m.settled(),
    ensures
        m.screen_key(code, ctrl, pending_g).valid(),
{
    match m.screen {
        Screen::ConfirmReset | Screen::ConfirmQuitReset => {
            lemma_confirm_key(m, code);
        },
        Screen::Help => {
            lemma_help_key(m, code, ctrl);
        },
        Screen::Search => {
            lemma_search_key(m, code, ctrl);
        },
        Screen::ListPicker => {
            lemma_picker_key(m, code, ctrl);
        },
        Screen::Checklist => {
            lemma_scroll_key(m, code, ctrl);
            lemma_global_key(m, code, ctrl);
            lemma_checklist_key(m, code, pending_g);
        },
        Screen::ListComplete | Screen::AllComplete => {
            lemma_global_key(m, code, ctrl);
            lemma_summary_key(m, code);
        },
    }
}

/// Law: whatever key is pressed, the state stays valid: the cursor stays on a
/// card, a search can be given up, and the history keeps its bound.
pub proof fn law_keys_keep_the_state_valid(m: AppModel, code: KeyCode, modifiers: KeyModifiers)
    requires
        m.valid(),
        m.settled(),
    ensures
        m.key(code, modifiers).valid(),
{
    lemma_quiet(m);
    let start = m.without_chords();
    lemma_links(start);
    lemma_screen_key(start, code, modifiers.control, m.pending_g);
}

/// Lemma: a click on a row of the overview keeps the state valid.
proof fn lemma_row_clicked(m: AppModel, target: OverviewTarget)
    requires
        m.valid(),
        m.settled(),
    ensures
        m.row_clicked(target).valid(),
{
    match target {
        OverviewTarget::List(list) => {
            lemma_at_list(m, list);
        },
        OverviewTarget::Item(list, item) => {
            lemma_focused(m, list, item);
            lemma_quiet(m.focused(list, item));
        },
        OverviewTarget::Toggle(list, item) => {
            lemma_item_toggled(m, list, item);
        },
    }
}

/// Lemma: turning the wheel keeps the state valid.
proof fn lemma_wheel(m: AppModel)
    requires
        m.valid(),
    ensures
        m.wheel_up().valid(),
        m.wheel_down().valid(),
{
    lemma_quiet(m);
    let cleared = m.without_chords();
    lemma_prev(cleared);
    lemma_next(cleared);
    assert(cleared.card_up(1).valid());
    assert(cleared.card_down(1).valid());
}

/// Law: whatever is done with the mouse, the state stays valid.
pub proof fn law_mouse_keeps_the_state_valid(m: AppModel, col: u16, row: u16)
    requires
        m.valid(),
        m.settled(),
    ensures
        m.clicked(col, row).valid(),
        m.wheel_up().valid(),
        m.wheel_down().valid(),
{
    lemma_quiet(m);
    let cleared = m.without_chords();
    lemma_quiet(cleared);
    if let Some(target) = m.overview_hit(col, row) {
        lemma_row_clicked(cleared, target);
    }
    assert(cleared.card_clicked(col, row).valid());
    lemma_wheel(m);
}

// ----- Writing and reloading keep the invariant ------------------------

/// Lemma: recording a change keeps the state valid.
proof fn lemma_recorded(m: AppModel, pre_state: Seq<(usize, TaskState)>)
    requires
        m.valid(),
        m.settled(),
    ensures
        m.recorded(pre_state).valid(),
        m.recorded(pre_state).settled(),
        m.recorded(pre_state).on_screen(Screen::Checklist).valid(),
{
}

/// Lemma: the follow-up of a completed task keeps the state valid.
proof fn lemma_advanced(m: AppModel)
    requires
        m.valid(),
    ensures
        m.advanced().valid(),
{
    lemma_next(m);
}

/// Lemma: reporting a step of the history keeps the state valid, and the
/// history as it is.
#[verifier::rlimit(30)]
proof fn lemma_history_reported(m: AppModel, redo: bool, changed: Seq<usize>)
    requires
        m.valid(),
        m.settled(),
    ensures
        m.history_reported(redo, changed).valid(),
        m.history_reported(redo, changed).settled(),
        m.history_reported(redo, changed).undo_stack == m.undo_stack,
        m.history_reported(redo, changed).redo_stack == m.redo_stack,
{
    let there = m.on_screen(Screen::Checklist);
    lemma_quiet(there);
    if changed.len() == 1 {
        if let Some(place) = there.line_place(changed[0]) {
            lemma_focused(there, place.0, place.1);
        }
        lemma_quiet(there.line_focused(changed[0]));
    }
}

/// Lemma: the follow-up of toggling the current task keeps the state valid.
proof fn lemma_after_toggle(m: AppModel, pre_state: Seq<(usize, TaskState)>, done: bool)
    requires
        m.valid(),
        m.settled(),
    ensures
        m.after_toggle(pre_state, done).valid(),
        m.after_toggle(pre_state, done).settled(),
{
    lemma_recorded(m, pre_state);
    lemma_advanced(m.recorded(pre_state));
}

/// Lemma: the follow-up of toggling a task of the overview keeps the state
/// valid.
proof fn lemma_after_overview(m: AppModel, pre_state: Seq<(usize, TaskState)>, done: bool)
    requires
        m.valid(),
        m.settled(),
    ensures
        m.after_overview(pre_state, done).valid(),
        m.after_overview(pre_state, done).settled(),
{
    let kept = m.recorded(pre_state);
    lemma_recorded(m, pre_state);
    let there = if kept.summary_holds() {
        kept
    } else {
        kept.on_screen(Screen::Checklist)
    };
    lemma_quiet(there);
}

/// Lemma: the follow-up of starting a task, or of resetting all, keeps the
/// state valid.
proof fn lemma_after_start(m: AppModel, pre_state: Seq<(usize, TaskState)>)
    requires
        m.valid(),
        m.settled(),
    ensures
        m.after_start(pre_state).valid(),
        m.after_start(pre_state).settled(),
        m.after_reset(pre_state).valid(),
        m.after_reset(pre_state).settled(),
{
    lemma_recorded(m, pre_state);
    lemma_quiet(m.recorded(pre_state).on_screen(Screen::Checklist));
}

/// Lemma: adding a step to the history keeps the state valid.
proof fn lemma_with_step(m: AppModel, redo: bool, pre_state: Seq<(usize, TaskState)>)
    requires
        m.valid(),
        m.settled(),
        m.history_size() + 1 <= UNDO_HISTORY_CAP,
    ensures
        m.with_step(redo, pre_state).valid(),
        m.with_step(redo, pre_state).settled(),
{
}

/// Lemma: the follow-up of a step of the history keeps the state valid.
proof fn lemma_after_history(
    m: AppModel,
    pre_state: Seq<(usize, TaskState)>,
    redo: bool,
    changed: Seq<usize>,
)
    requires
        m.valid(),
        m.settled(),
        m.history_size() + 1 <= UNDO_HISTORY_CAP,
    ensures
        m.after_history(pre_state, redo, changed).valid(),
        m.after_history(pre_state, redo, changed).settled(),
{
    lemma_history_reported(m, redo, changed);
    lemma_with_step(m.history_reported(redo, changed), redo, pre_state);
    assert(m.after_history(pre_state, redo, changed) == m.history_reported(
        redo,
        changed,
    ).with_step(redo, pre_state));
}

/// Lemma: the follow-up of a write keeps the state valid.
proof fn lemma_followed_up(
    m: AppModel,
    pre_state: Seq<(usize, TaskState)>,
    then_do: AfterWriteModel,
)
    requires
        m.valid(),
        m.settled(),
        then_do is History ==> m.history_size() + 1 <= UNDO_HISTORY_CAP,
    ensures
        m.followed_up(pre_state, then_do).valid(),
        m.followed_up(pre_state, then_do).settled(),
{
    match then_do {
        AfterWriteModel::Toggle { done } => {
            lemma_after_toggle(m, pre_state, done);
        },
        AfterWriteModel::Start => {
            lemma_after_start(m, pre_state);
        },
        AfterWriteModel::Overview { done } => {
            lemma_after_overview(m, pre_state, done);
        },
        AfterWriteModel::Reset => {
            lemma_after_start(m, pre_state);
        },
        AfterWriteModel::History { redo, changed, .. } => {
            lemma_after_history(m, pre_state, redo, changed);
        },
    }
}

/// Law: a change that was written leaves a valid state, in which no change
/// waits.
pub proof fn law_written_keeps_the_state_valid(m: AppModel, stat: Option<(u128, u64)>)
    requires
        m.valid(),
    ensures
        m.written(stat).valid(),
        m.written(stat).settled(),
{
    if let Some(write) = m.pending_write {
        let noted = m.noted_written(stat, write.change_desc);
        assert(noted.valid());
        lemma_followed_up(noted, write.pre_state, write.then_do);
    }
}

/// Lemma: taking a change back keeps the state valid.
proof fn lemma_taken_back(m: AppModel, pre_state: Seq<(usize, TaskState)>)
    requires
        m.valid(),
    ensures
        m.taken_back(pre_state).valid(),
        m.taken_back(pre_state).settled(),
{
    let dropped = AppModel { pending_write: None, ..m };
    lemma_restored(dropped, pre_state);
    lemma_states_do_not_matter(dropped, model::restored(m.document.lists, pre_state));
}

/// Lemma: putting a step of the history back keeps the state valid.
proof fn lemma_history_kept(m: AppModel, then_do: AfterWriteModel)
    requires
        m.valid(),
        m.settled(),
        then_do is History ==> m.history_size() + 1 <= UNDO_HISTORY_CAP,
    ensures
        m.history_kept(then_do).valid(),
        m.history_kept(then_do).settled(),
{
}

/// Law: a change that could not be written leaves a valid state, in which no
/// change waits.
pub proof fn law_not_written_keeps_the_state_valid(m: AppModel)
    requires
        m.valid(),
    ensures
        m.not_written().valid(),
        m.not_written().settled(),
{
    if let Some(write) = m.pending_write {
        let back = m.taken_back(write.pre_state);
        lemma_taken_back(m, write.pre_state);
        lemma_quiet(back);
        lemma_history_kept(back.with_error(write.fail_msg), write.then_do);
    }
}

/// The document found on disk, if it was understood, can be counted in machine
/// numbers.
pub open spec fn countable_disk(disk: DiskModel) -> bool {
    disk.parsed matches ParsedModel::Read(new) ==> order::countable(new.lists)
}

/// Lemma: the cursor is on a card after a reload.
proof fn lemma_remapped(m: AppModel, new: DocumentModel)
    requires
        new.lists.len() > 0,
        order::countable(new.lists),
    ensures
        (AppModel { document: new, ..m }).valid_place(m.remapped(new).0, m.remapped(new).1),
{
    let title = m.document.lists[m.current_list_index as int].title@;
    let rank = app_spec::title_rank(m.document.lists, m.current_list_index as int, title);
    let list = app_spec::ranked_list(new.lists, title, rank);
    assert(0 <= list < new.lists.len());
    if let Some(card) = m.current_item() {
        text::lemma_first_from(new.lists[list].items, document::on_line(card.line_number), 0);
    }
}

/// Law: a reload keeps the state valid, whatever the file holds now. A change
/// that waits to be written still waits.
pub proof fn law_reload_keeps_the_state_valid(m: AppModel, disk: DiskModel, was_deleted: bool)
    requires
        m.valid(),
        countable_disk(disk),
    ensures
        m.reloaded(disk, was_deleted).valid(),
        m.reloaded(disk, was_deleted).pending_write == m.pending_write,
{
    let noted = m.noted_disk(disk.mtime, disk.size);
    assert(noted.valid());
    lemma_quiet(noted);
    if let ParsedModel::Read(new) = disk.parsed {
        if new.lists.len() > 0 {
            lemma_remapped(noted, new);
            let place = noted.remapped(new);
            let taken = AppModel {
                document: new,
                file_content_hash: disk.hash,
                last_update_at: Some(noted.now),
                undo_stack: Seq::empty(),
                redo_stack: Seq::empty(),
                ..noted
            };
            assert(taken.shown(place.0, place.1).valid());
            lemma_quiet(taken.shown(place.0, place.1));
            lemma_quiet(taken.shown(place.0, place.1).auto_copied(CopyReport::Never));
        }
    }
}

/// Lemma: reading the file again keeps the state valid.
proof fn lemma_reread(m: AppModel, disk: Option<DiskModel>, then_do: AfterWriteModel)
    requires
        m.valid(),
        m.settled(),
        disk matches Some(d) ==> countable_disk(d),
        then_do is History ==> m.history_size() + 1 <= UNDO_HISTORY_CAP,
    ensures
        m.reread(disk, then_do).valid(),
        m.reread(disk, then_do).settled(),
{
    match disk {
        Some(d) => {
            let after = m.reloaded(d, m.file_deleted);
            law_reload_keeps_the_state_valid(m, d, m.file_deleted);
            if !d.adoptable() {
                assert(after.history_size() == m.history_size());
                lemma_history_kept(after, then_do);
            }
        },
        None => {
            lemma_history_kept(m, then_do);
        },
    }
}

/// Law: a change that met a changed file leaves a valid state, in which no
/// change waits.
pub proof fn law_conflict_keeps_the_state_valid(m: AppModel, disk: Option<DiskModel>)
    requires
        m.valid(),
        disk matches Some(d) ==> countable_disk(d),
    ensures
        m.conflicted(disk).valid(),
        m.conflicted(disk).settled(),
{
    if let Some(write) = m.pending_write {
        let back = m.taken_back(write.pre_state);
        lemma_taken_back(m, write.pre_state);
        lemma_reread(back, disk, write.then_do);
        lemma_quiet(back.reread(disk, write.then_do));
    }
}

/// Law: the application starts in a valid state: on the first task that is not
/// done, if there is one, and at the beginning otherwise.
pub proof fn law_start_is_valid(
    document: DocumentModel,
    mtime: Option<u128>,
    size: Option<u64>,
    hash: Option<ContentHash>,
)
    requires
        document.lists.len() > 0,
        order::countable(document.lists),
    ensures
        ({
            let m = AppModel::initial(document, mtime, size, hash);
            &&& m.valid()
            &&& m.settled()
            &&& !model::lists_all_done(document.lists) ==> m.current_item() is Some
                && model::open_task(m.current_item()->0.kind)
            &&& model::lists_all_done(document.lists) ==> m.cursor() == (0usize, 0usize)
        }),
{
    let lists = document.lists;
    text::lemma_first_from(lists, model::list_has_open(), 0);
    match text::first_from(lists, model::list_has_open(), 0) {
        Some(list) => {
            text::lemma_first_from(lists[list].items, model::open_item(), 0);
            let item = model::first_open(lists[list].items)->0;
            assert(model::open_task(lists[list].items[item].kind));
            assert(!model::all_done(lists[list].items));
        },
        None => {
            assert forall|i: int| 0 <= i < lists.len() implies model::all_done(
                (#[trigger] lists[i]).items,
            ) by {
                assert(!model::list_has_open()(lists[i]));
                text::lemma_first_from(lists[i].items, model::open_item(), 0);
                assert forall|j: int| 0 <= j < lists[i].items.len() implies !model::open_task(
                    (#[trigger] lists[i].items[j]).kind,
                ) by {
                    assert(!model::open_item()(lists[i].items[j]));
                }
            }
        },
    }
}

// ----- Every call keeps the invariant ----------------------------------

/// A call of a public method that moves about, under the method's name, with
/// its arguments.
pub enum Moving {
    NavigateNext,
    NavigatePrev,
    NavigateForward,
    NavigateBackward,
    JumpToList(usize),
    JumpToNextIncompleteList,
    JumpToPrevIncompleteList,
    JumpToNextIncompleteTask,
    GoToFirstItem,
    GoToLastItem,
    FocusItem(usize, usize),
}

/// A call of a public method that neither moves the cursor nor changes a task,
/// under the method's name, with its arguments.
pub enum Noting {
    SetStatus(Seq<char>),
    SetError(Seq<char>),
    ClearStatus,
    ExpireStatus(u64),
    SetNow(u64),
    MaybeAutoCopy,
    CopyCurrentCode,
    TakeCopyRequest,
    FinishCopy(CopyReport, CopyOutcome),
    ScrollCardDown,
    ScrollCardUp,
    ScrollCardDownBy(u16),
    ScrollCardUpBy(u16),
    OpenCurrentLink,
    OpenLinkNumber(usize),
    TakeLinkOpenRequest,
    TakeEditorRequest,
    TakeGitSyncRequest,
    RecordGitSync,
    ReloadIfChanged(FileStat),
    RequestExternalEditSync(Seq<char>),
}

/// A call of a public method that takes input, under the method's name, with
/// its arguments.
pub enum Taking {
    HandleScrollUp,
    HandleScrollDown,
    HandleLeftClick(u16, u16),
    HandleKey(KeyCode),
    HandleKeyWithMods(KeyCode, KeyModifiers),
}

/// A call of a public method that changes tasks or takes over a document, or
/// begins or ends that, under the method's name, with its arguments.
pub enum Changing {
    ToggleCurrent,
    ToggleItem(usize, usize),
    StartCurrent,
    RequestReset,
    ResetAll,
    ApplySnapshot(Seq<(usize, TaskState)>),
    Undo,
    Redo,
    FinishWrite(bool, Option<(u128, u64)>),
    FinishConflict(Option<DiskModel>),
    ReloadFromDisk(DiskModel, bool),
}

/// A call of one of the application's public methods that change it.
pub enum Call {
    Move(Moving),
    Note(Noting),
    Take(Taking),
    Change(Changing),
}

impl Moving {
    /// The state after the call.
    pub open spec fn after(self, m: AppModel) -> AppModel {
        match self {
            Moving::NavigateNext => m.next(),
            Moving::NavigatePrev => m.prev(),
            Moving::NavigateForward => m.forward(),
            Moving::NavigateBackward => m.backward(),
            Moving::JumpToList(index) => m.at_list(index),
            Moving::JumpToNextIncompleteList => m.at_next_incomplete_list(),
            Moving::JumpToPrevIncompleteList => m.at_prev_incomplete_list(),
            Moving::JumpToNextIncompleteTask => m.at_next_incomplete_task(),
            Moving::GoToFirstItem => m.at_first(),
            Moving::GoToLastItem => m.at_last(),
            Moving::FocusItem(list, item) => m.focused(list, item),
        }
    }
}

impl Noting {
    /// What the method requires of its arguments.
    pub open spec fn allowed(self) -> bool {
        self matches Noting::OpenLinkNumber(n) ==> n >= 1
    }

    /// The state after the call.
    pub open spec fn after(self, m: AppModel) -> AppModel {
        match self {
            Noting::SetStatus(msg) => m.with_status(msg),
            Noting::SetError(msg) => m.with_error(msg),
            Noting::ClearStatus => m.without_status(),
            Noting::ExpireStatus(now) => if m.status_expiry matches Some(expiry) && now
                >= expiry {
                m.without_status()
            } else {
                m
            },
            Noting::SetNow(now) => AppModel { now, ..m },
            Noting::MaybeAutoCopy => m.auto_copied(CopyReport::OnSuccess),
            Noting::CopyCurrentCode => m.code_copied(),
            Noting::TakeCopyRequest => AppModel { copy_request: None, ..m },
            Noting::FinishCopy(report, outcome) => m.copy_reported(report, outcome),
            Noting::ScrollCardDown => m.card_down(1),
            Noting::ScrollCardUp => m.card_up(1),
            Noting::ScrollCardDownBy(n) => m.card_down(n as int),
            Noting::ScrollCardUpBy(n) => m.card_up(n as int),
            Noting::OpenCurrentLink => m.current_link_opened(),
            Noting::OpenLinkNumber(n) => m.link_number_opened(n as int),
            Noting::TakeLinkOpenRequest => AppModel { link_open_request: None, ..m },
            Noting::TakeEditorRequest => AppModel { editor_requested: false, ..m },
            Noting::TakeGitSyncRequest => AppModel { sync_pending: None, ..m },
            Noting::RecordGitSync => AppModel { sync_last_at: Some(m.now), ..m },
            Noting::ReloadIfChanged(stat) => match stat {
                FileStat::Missing => m.gone(),
                FileStat::Unreadable => m,
                FileStat::Found { .. } => AppModel { file_deleted: false, ..m },
            },
            Noting::RequestExternalEditSync(editor) => AppModel {
                sync_pending: Some(
                    SyncModel {
                        content: m.document.contents(),
                        content_hash: text::text_hash(m.document.contents()),
                        previous_content_hash: m.file_content_hash,
                        description: "Edited in "@ + editor,
                    },
                ),
                ..m
            },
        }
    }
}

impl Taking {
    /// What the method requires, beyond the cursor being on a list: that no
    /// change waits to be written, where it may make one.
    pub open spec fn allowed(self, m: AppModel) -> bool {
        match self {
            Taking::HandleScrollUp => true,
            Taking::HandleScrollDown => true,
            _ => m.settled(),
        }
    }

    /// The state after the call.
    pub open spec fn after(self, m: AppModel) -> AppModel {
        match self {
            Taking::HandleScrollUp => m.wheel_up(),
            Taking::HandleScrollDown => m.wheel_down(),
            Taking::HandleLeftClick(col, row) => m.clicked(col, row),
            Taking::HandleKey(code) => m.key(code, (KeyModifiers { control: false })),
            Taking::HandleKeyWithMods(code, modifiers) => m.key(code, modifiers),
        }
    }
}

impl Changing {
    /// What the method requires, beyond the cursor being on a list: that no
    /// change waits to be written, where it makes one. A document that is
    /// handed over can be counted in machine numbers.
    pub open spec fn allowed(self, m: AppModel) -> bool {
        match self {
            Changing::RequestReset => true,
            Changing::ApplySnapshot(_) => true,
            Changing::FinishWrite(_, _) => true,
            Changing::FinishConflict(disk) => disk matches Some(d) ==> countable_disk(d),
            Changing::ReloadFromDisk(disk, _) => countable_disk(disk),
            _ => m.settled(),
        }
    }

    /// The state after the call.
    pub open spec fn after(self, m: AppModel) -> AppModel {
        match self {
            Changing::ToggleCurrent => m.toggled(),
            Changing::ToggleItem(list, item) => m.item_toggled(list, item),
            Changing::StartCurrent => m.started(),
            Changing::RequestReset => m.reset_requested(),
            Changing::ResetAll => m.all_reset(),
            Changing::ApplySnapshot(snapshot) => m.with_states(snapshot),
            Changing::Undo => m.undone(),
            Changing::Redo => m.redone(),
            Changing::FinishWrite(written, stat) => if written {
                m.written(stat)
            } else {
                m.not_written()
            },
            Changing::FinishConflict(disk) => m.conflicted(disk),
            Changing::ReloadFromDisk(disk, was_deleted) => m.reloaded(disk, was_deleted),
        }
    }
}

impl Call {
    /// What the method requires, beyond the cursor being on a list.
    pub open spec fn allowed(self, m: AppModel) -> bool {
        match self {
            Call::Move(_) => true,
            Call::Note(call) => call.allowed(),
            Call::Take(call) => call.allowed(m),
            Call::Change(call) => call.allowed(m),
        }
    }

    /// The state after the call.
    pub open spec fn after(self, m: AppModel) -> AppModel {
        match self {
            Call::Move(call) => call.after(m),
            Call::Note(call) => call.after(m),
            Call::Take(call) => call.after(m),
            Call::Change(call) => call.after(m),
        }
    }
}

/// Each of the calls is allowed in the state that those before it lead to from
/// `m`.
pub open spec fn all_allowed(m: AppModel, calls: Seq<Call>) -> bool
    decreases calls.len(),
{
    calls.len() == 0 || (all_allowed(m, calls.drop_last()) && calls.last().allowed(
        after_calls(m, calls.drop_last()),
    ))
}

/// The state that the calls, one after the other, lead to from `m`.
pub open spec fn after_calls(m: AppModel, calls: Seq<Call>) -> AppModel
    decreases calls.len(),
{
    if calls.len() == 0 {
        m
    } else {
        calls.last().after(after_calls(m, calls.drop_last()))
    }
}

/// Lemma: calls that move about keep the state valid.
proof fn lemma_moving(m: AppModel, call: Moving)
    requires
        m.valid(),
    ensures
        call.after(m).valid(),
{
    match call {
        Moving::NavigateNext => lemma_next(m),
        Moving::NavigatePrev => lemma_prev(m),
        Moving::NavigateForward => lemma_forward(m),
        Moving::NavigateBackward => lemma_backward(m),
        Moving::JumpToList(index) => lemma_at_list(m, index),
        Moving::JumpToNextIncompleteList => lemma_incomplete_lists(m),
        Moving::JumpToPrevIncompleteList => lemma_incomplete_lists(m),
        Moving::JumpToNextIncompleteTask => lemma_next_task(m),
        Moving::GoToFirstItem => lemma_ends(m),
        Moving::GoToLastItem => lemma_ends(m),
        Moving::FocusItem(list, item) => lemma_focused(m, list, item),
    }
}

/// The states agree in all that validity depends on.
spec fn same_ground(m: AppModel, n: AppModel) -> bool {
    &&& n.document == m.document
    &&& n.cursor() == m.cursor()
    &&& n.screen == m.screen
    &&& n.screen_before_confirm == m.screen_before_confirm
    &&& n.search_origin == m.search_origin
    &&& n.undo_stack == m.undo_stack
    &&& n.redo_stack == m.redo_stack
    &&& n.pending_write == m.pending_write
}

/// Lemma: messages change nothing that validity depends on.
proof fn lemma_messages(m: AppModel)
    ensures
        same_ground(m, m.without_status()),
        same_ground(m, m.gone()),
        forall|msg: Seq<char>| same_ground(m, #[trigger] m.with_status(msg)),
        forall|msg: Seq<char>| same_ground(m, #[trigger] m.with_error(msg)),
{
}

/// Lemma: copies change nothing that validity depends on.
proof fn lemma_copies(m: AppModel, report: CopyReport, outcome: CopyOutcome)
    ensures
        same_ground(m, m.auto_copied(report)),
        same_ground(m, m.code_copied()),
        same_ground(m, m.copy_reported(report, outcome)),
{
    lemma_messages(m);
    assert forall|t: Seq<char>, r: CopyReport| same_ground(m, #[trigger] m.copying(t, r)) by {}
}

/// Lemma: links change nothing that validity depends on.
proof fn lemma_opened(m: AppModel, n: int)
    ensures
        same_ground(m, m.current_link_opened()),
        same_ground(m, m.link_number_opened(n)),
{
    lemma_messages(m);
    assert forall|url: Seq<char>| same_ground(m, #[trigger] m.link_opened(url)) by {}
}

/// Lemma: calls that only take note of something change nothing that validity
/// depends on.
proof fn lemma_noting(m: AppModel, call: Noting)
    ensures
        same_ground(m, call.after(m)),
{
    match call {
        Noting::SetStatus(_) | Noting::SetError(_) | Noting::ClearStatus | Noting::ExpireStatus(_)
        | Noting::ReloadIfChanged(_) => {
            lemma_messages(m);
        },
        Noting::MaybeAutoCopy | Noting::CopyCurrentCode => {
            lemma_copies(m, CopyReport::OnSuccess, CopyOutcome::Failed);
        },
        Noting::FinishCopy(report, outcome) => {
            lemma_copies(m, report, outcome);
        },
        Noting::OpenCurrentLink => {
            lemma_opened(m, 0);
        },
        Noting::OpenLinkNumber(n) => {
            lemma_opened(m, n as int);
        },
        _ => {},
    }
}

/// Lemma: calls that take input keep the state valid.
proof fn lemma_taking(m: AppModel, call: Taking)
    requires
        m.valid(),
        call.allowed(m),
    ensures
        call.after(m).valid(),
{
    match call {
        Taking::HandleScrollUp => lemma_wheel(m),
        Taking::HandleScrollDown => lemma_wheel(m),
        Taking::HandleLeftClick(col, row) => law_mouse_keeps_the_state_valid(m, col, row),
        Taking::HandleKey(code) => {
            law_keys_keep_the_state_valid(m, code, KeyModifiers { control: false })
        },
        Taking::HandleKeyWithMods(code, modifiers) => {
            law_keys_keep_the_state_valid(m, code, modifiers)
        },
    }
}

/// Lemma: calls that change tasks or the document keep the state valid.
proof fn lemma_changing(m: AppModel, call: Changing)
    requires
        m.valid(),
        call.allowed(m),
    ensures
        call.after(m).valid(),
{
    match call {
        Changing::ToggleCurrent => lemma_toggled(m),
        Changing::ToggleItem(list, item) => lemma_item_toggled(m, list, item),
        Changing::StartCurrent => lemma_toggled(m),
        Changing::RequestReset => lemma_dialogs(m),
        Changing::ResetAll => lemma_all_reset(m),
        Changing::ApplySnapshot(snapshot) => {
            lemma_restored(m, snapshot);
            lemma_states_do_not_matter(m, model::restored(m.document.lists, snapshot));
        },
        Changing::Undo => lemma_undone(m),
        Changing::Redo => lemma_undone(m),
        Changing::FinishWrite(_, stat) => {
            law_written_keeps_the_state_valid(m, stat);
            law_not_written_keeps_the_state_valid(m);
        },
        Changing::FinishConflict(disk) => law_conflict_keeps_the_state_valid(m, disk),
        Changing::ReloadFromDisk(disk, was_deleted) => {
            law_reload_keeps_the_state_valid(m, disk, was_deleted)
        },
    }
}

/// Law: whatever public method is called, as long as what it requires is met,
/// the state stays valid: the cursor stays on a card, or at the beginning of a
/// list without cards.
pub proof fn law_calls_keep_the_state_valid(m: AppModel, call: Call)
    requires
        m.valid(),
        call.allowed(m),
    ensures
        call.after(m).valid(),
{
    match call {
        Call::Move(c) => lemma_moving(m, c),
        Call::Note(c) => lemma_noting(m, c),
        Call::Take(c) => lemma_taking(m, c),
        Call::Change(c) => lemma_changing(m, c),
    }
}

/// Law: from the start on, whatever sequence of public methods is called, the
/// state stays valid. The cursor is on a list of the document, so that the
/// current list is always there, and on one of its cards, or at the beginning
/// of a list without cards.
pub proof fn law_every_state_is_valid(
    document: DocumentModel,
    mtime: Option<u128>,
    size: Option<u64>,
    hash: Option<ContentHash>,
    calls: Seq<Call>,
)
    requires
        document.lists.len() > 0,
        order::countable(document.lists),
        all_allowed(AppModel::initial(document, mtime, size, hash), calls),
    ensures
        ({
            let m = after_calls(AppModel::initial(document, mtime, size, hash), calls);
            &&& m.valid()
            &&& m.has_list()
            &&& m.current_item_index == 0 || m.current_item_index < m.current_items().len()
        }),
    decreases calls.len(),
{
    if calls.len() == 0 {
        law_start_is_valid(document, mtime, size, hash);
    } else {
        law_every_state_is_valid(document, mtime, size, hash, calls.drop_last());
        law_calls_keep_the_state_valid(
            after_calls(AppModel::initial(document, mtime, size, hash), calls.drop_last()),
            calls.last(),
        );
    }
}

} // verus!
