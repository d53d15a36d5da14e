//! Laws of the cursor: where searches, jumps and reloads lead.

use vstd::prelude::*;

use crate::app_laws;
use crate::app_laws::Moving;
use crate::app_state::{AppModel, CopyModel, CopyReport, Screen, STATUS_TIMEOUT_MS};
use crate::model::{DocumentModel, Item, ListModel};
use crate::{app_spec, app_write, clipboard, document, model, order, text};

verus! {

// ----- Search ----------------------------------------------------------

/// Law: giving a search up brings the cursor back to where it was when the
/// search began, whatever was typed meanwhile.
pub proof fn law_search_can_be_given_up(m: AppModel, queries: Seq<Seq<char>>)
    ensures
        ({
            let after = typed(m.searching(), queries).search_cancelled();
            &&& after.cursor() == m.cursor()
            &&& after.screen == Screen::Checklist
            &&& after.document == m.document
        }),
    decreases queries.len(),
{
    lemma_typed(m.searching(), queries);
}

/// The query of a search changed to each of `queries` in turn.
pub open spec fn typed(m: AppModel, queries: Seq<Seq<char>>) -> AppModel
    decreases queries.len(),
{
    if queries.len() == 0 {
        m
    } else {
        typed(m, queries.drop_last()).with_query(queries.last())
    }
}

/// Lemma: typing keeps where the search began.
proof fn lemma_typed(m: AppModel, queries: Seq<Seq<char>>)
    ensures
        typed(m, queries).search_origin == m.search_origin,
        typed(m, queries).document == m.document,
    decreases queries.len(),
{
    if queries.len() > 0 {
        lemma_typed(m, queries.drop_last());
    }
}

/// Law: while a query is typed, the cursor goes to the first card of the
/// document that it finds; where it finds none, the cursor stays.
pub proof fn law_search_goes_to_the_first_match(m: AppModel, query: Seq<char>)
    requires
        order::countable(m.document.lists),
    ensures
        ({
            let after = m.with_query(query);
            let keep = model::found_by_search(query);
            &&& (exists|p: (usize, usize)| order::kept_place(m.document.lists, keep, p)) ==> {
                &&& order::kept_place(m.document.lists, keep, after.cursor())
                &&& forall|p: (usize, usize)| #[trigger]
                    order::kept_place(m.document.lists, keep, p) ==> p == after.cursor()
                        || model::place_before(after.cursor(), p)
            }
            &&& !(exists|p: (usize, usize)| order::kept_place(m.document.lists, keep, p))
                ==> after.cursor() == m.cursor()
        }),
{
    let lists = m.document.lists;
    let keep = model::found_by_search(query);
    let found = model::places(lists, keep);
    order::law_places_are_exact(lists, keep);
    order::law_places_are_in_order(lists, keep);
    assert(m.with_query(query).matches(query) == found);
    if found.len() > 0 {
        assert(order::kept_place(lists, keep, found[0]));
        assert forall|p: (usize, usize)| #[trigger] order::kept_place(lists, keep, p) implies p
            == found[0] || model::place_before(found[0], p) by {
            let k = found.index_of(p);
            assert(found[k] == p);
        }
    } else {
        assert forall|p: (usize, usize)| !#[trigger] order::kept_place(lists, keep, p) by {
            if order::kept_place(lists, keep, p) {
                assert(found.contains(p));
            }
        }
    }
}

/// Law: cycling goes to a card that the last search finds, wherever there is
/// one: forward to the next one after the cursor, or else round to the first;
/// backward to the nearest one before it, or else round to the last.
pub proof fn law_cycling_stays_on_matches(m: AppModel, query: Seq<char>, forward: bool)
    requires
        order::countable(m.document.lists),
        m.search_last == Some(query),
        m.matches(query).len() > 0,
    ensures
        ({
            let found = m.matches(query);
            let at = m.search_cycled(forward).cursor();
            &&& found.contains(at)
            &&& forward && (exists|k: int|
                0 <= k < found.len() && model::place_before(m.cursor(), #[trigger] found[k])) ==> {
                &&& model::place_before(m.cursor(), at)
                &&& forall|k: int|
                    0 <= k < found.len() && model::place_before(m.cursor(), #[trigger] found[k])
                        ==> found[k] == at || model::place_before(at, found[k])
            }
            &&& forward && !(exists|k: int|
                0 <= k < found.len() && model::place_before(m.cursor(), #[trigger] found[k])) ==> at
                == found[0]
            &&& !forward && (exists|k: int|
                0 <= k < found.len() && model::place_before(#[trigger] found[k], m.cursor())) ==> {
                &&& model::place_before(at, m.cursor())
                &&& forall|k: int|
                    0 <= k < found.len() && model::place_before(#[trigger] found[k], m.cursor())
                        ==> found[k] == at || model::place_before(found[k], at)
            }
            &&& !forward && !(exists|k: int|
                0 <= k < found.len() && model::place_before(#[trigger] found[k], m.cursor())) ==> at
                == found.last()
        }),
{
    let lists = m.document.lists;
    let keep = model::found_by_search(query);
    let found = m.matches(query);
    let cur = m.cursor();
    order::law_places_are_exact(lists, keep);
    order::law_places_are_in_order(lists, keep);
    let target = if forward {
        app_spec::match_after(found, cur)
    } else {
        app_spec::match_before(found, cur)
    };
    if forward {
        text::lemma_first_from(found, app_spec::after_place(cur), 0);
    } else {
        text::lemma_last_before(found, app_spec::before_place(cur), found.len() as int);
    }
    assert(0 <= target < found.len());
    assert(order::kept_place(lists, keep, found[target]));
    lemma_focused(m, found[target]);
    let at = m.search_cycled(forward).cursor();
    assert(at == found[target]);
    let p = app_spec::after_place(cur);
    let q = app_spec::before_place(cur);
    if forward {
        if exists|k: int| 0 <= k < found.len() && model::place_before(cur, #[trigger] found[k]) {
            let k = choose|k: int|
                0 <= k < found.len() && model::place_before(cur, #[trigger] found[k]);
            assert(p(found[k]));
            assert(p(found[target]));
            assert forall|j: int|
                0 <= j < found.len() && model::place_before(cur, #[trigger] found[j]) implies found[j]
                == at || model::place_before(at, found[j]) by {
                assert(p(found[j]));
            }
        } else if text::first_from(found, p, 0) is Some {
            assert(p(found[target]));
        }
    } else {
        if exists|k: int| 0 <= k < found.len() && model::place_before(#[trigger] found[k], cur) {
            let k = choose|k: int|
                0 <= k < found.len() && model::place_before(#[trigger] found[k], cur);
            assert(q(found[k]));
            assert(q(found[target]));
            assert forall|j: int|
                0 <= j < found.len() && model::place_before(#[trigger] found[j], cur) implies found[j]
                == at || model::place_before(found[j], at) by {
                assert(q(found[j]));
            }
        } else if text::last_before(found, q, found.len() as int) is Some {
            assert(q(found[target]));
        }
    }
}

/// Lemma: going to a card that is there goes to exactly that card.
proof fn lemma_focused(m: AppModel, place: (usize, usize))
    requires
        place.0 < m.document.lists.len(),
        place.1 < m.document.lists[place.0 as int].items.len(),
        m.document.lists[place.0 as int].items.len() <= usize::MAX,
    ensures
        m.focused(place.0, place.1).cursor() == place,
        m.focused(place.0, place.1).screen == Screen::Checklist,
{
}

/// Law: picking a row of the go-to-task overlay goes to exactly the card that
/// the row shows.
pub proof fn law_picking_goes_to_the_row(m: AppModel)
    requires
        order::countable(m.document.lists),
        m.picker_selection < m.picker_places().len(),
    ensures
        m.picked().cursor() == m.picker_places()[m.picker_selection as int],
        m.picked().screen == Screen::Checklist,
{
    let lists = m.document.lists;
    let found = m.picker_places();
    let place = found[m.picker_selection as int];
    if m.picker_query.len() == 0 {
        order::law_places_are_exact(lists, model::any_item());
        assert(order::kept_place(lists, model::any_item(), place));
    } else {
        let keep = model::found_by_picker(m.picker_query);
        order::law_places_are_exact(lists, keep);
        assert(order::kept_place(lists, keep, place));
    }
    lemma_focused(m, place);
}

/// Law: with no filter, the go-to-task overlay lists every card of the
/// document, in order, each once.
pub proof fn law_overlay_lists_every_card(m: AppModel)
    requires
        order::countable(m.document.lists),
        m.picker_query.len() == 0,
    ensures
        forall|place: (usize, usize)| #[trigger]
            m.picker_places().contains(place) <==> model::item_at(
                m.document.lists,
                place.0,
                place.1,
            ) is Some,
        forall|a: int, b: int|
            0 <= a < b < m.picker_places().len() ==> model::place_before(
                #[trigger] m.picker_places()[a],
                #[trigger] m.picker_places()[b],
            ),
{
    let lists = m.document.lists;
    let keep = model::any_item();
    order::law_places_are_exact(lists, keep);
    order::law_places_are_in_order(lists, keep);
    assert forall|place: (usize, usize)| #[trigger] m.picker_places().contains(place)
        <==> model::item_at(lists, place.0, place.1) is Some by {
        if model::item_at(lists, place.0, place.1) is Some {
            assert(order::kept_place(lists, keep, place));
        }
    }
}

/// Law: the go-to-task filter lists cards in document order, each once. Where
/// it keeps a card that a search for the same text does not find, the headings
/// that the card is under take part in the match. (That it keeps every card
/// that the search finds is what `AppState::picker_matches` states.)
pub proof fn law_filter_adds_to_a_search_by_headings(m: AppModel)
    requires
        order::countable(m.document.lists),
        m.picker_query.len() > 0,
    ensures
        forall|a: int, b: int|
            0 <= a < b < m.picker_places().len() ==> model::place_before(
                #[trigger] m.picker_places()[a],
                #[trigger] m.picker_places()[b],
            ),
        forall|place: (usize, usize)| #[trigger]
            m.picker_places().contains(place) && !m.matches(m.picker_query).contains(place) ==> {
                let card = m.document.lists[place.0 as int].items[place.1 as int];
                &&& card.section@.len() > 0
                &&& text::smart_case_match(model::picker_text(card), m.picker_query)
                &&& !text::smart_case_match(model::search_text(card), m.picker_query)
            },
{
    let lists = m.document.lists;
    let query = m.picker_query;
    let by_search = model::found_by_search(query);
    let by_filter = model::found_by_picker(query);
    order::law_places_are_exact(lists, by_search);
    order::law_places_are_exact(lists, by_filter);
    order::law_places_are_in_order(lists, by_filter);
    assert forall|place: (usize, usize)| #[trigger] m.picker_places().contains(place)
        && !m.matches(query).contains(place) implies ({
        let card = lists[place.0 as int].items[place.1 as int];
        &&& card.section@.len() > 0
        &&& text::smart_case_match(model::picker_text(card), query)
        &&& !text::smart_case_match(model::search_text(card), query)
    }) by {
        assert(order::kept_place(lists, by_filter, place));
        assert(!order::kept_place(lists, by_search, place));
    }
}

// ----- Automatic copying -----------------------------------------------

/// The code of the card under the cursor, where it has just one, is asked to
/// be copied, with a report if that succeeds.
pub open spec fn asks_for_its_code(m: AppModel) -> bool {
    match m.current_item() {
        Some(card) => match clipboard::sole_code(card) {
            Some(code) => m.copy_request == Some(
                CopyModel {
                    text: code,
                    primary: m.clipboard_primary,
                    report: CopyReport::OnSuccess,
                },
            ),
            None => true,
        },
        None => true,
    }
}

/// Lemma: automatic copying asks for the code of the card under the cursor.
pub proof fn lemma_auto_copied(m: AppModel)
    requires
        m.auto_copy,
    ensures
        asks_for_its_code(m.auto_copied(CopyReport::OnSuccess)),
        m.auto_copied(CopyReport::OnSuccess).cursor() == m.cursor(),
{
}

/// Lemma: going to a list asks for the code of the card that is reached.
proof fn lemma_at_list_copies(m: AppModel, index: usize)
    requires
        m.auto_copy,
        m.at_list(index).cursor() != m.cursor(),
    ensures
        asks_for_its_code(m.at_list(index)),
{
    let item = match model::first_open(m.document.lists[index as int].items) {
        Some(i) => i as usize,
        None => 0,
    };
    lemma_auto_copied(m.shown(index, item));
}

/// Lemma: moving within a list asks for the code of the card that is reached.
proof fn lemma_next_copies(m: AppModel)
    requires
        m.auto_copy,
    ensures
        asks_for_its_code(m.next()),
        asks_for_its_code(m.prev()),
{
    let item = if m.current_item_index < app_spec::last_index(m.current_items().len()) {
        (m.current_item_index + 1) as usize
    } else {
        m.current_item_index
    };
    let back = app_spec::capped_diff(m.current_item_index as int, 1) as usize;
    lemma_auto_copied(m.moved(m.current_list_index, item));
    lemma_auto_copied(m.moved(m.current_list_index, back));
}

/// Law: with automatic copying, whatever way the cursor is moved to another
/// card, that card's code, where it has just one, is asked to be copied.
/// (`focus_item` leaves that to its callers.)
pub proof fn law_moving_copies(m: AppModel, call: Moving)
    requires
        m.auto_copy,
        m.document.lists.len() > 0,
        !(call is FocusItem),
        call.after(m).cursor() != m.cursor(),
    ensures
        asks_for_its_code(call.after(m)),
{
    match call {
        Moving::NavigateNext | Moving::NavigatePrev => {
            lemma_next_copies(m);
        },
        Moving::NavigateForward => {
            lemma_next_copies(m);
            if m.forward() != m.next() {
                lemma_at_list_copies(m, (m.current_list_index + 1) as usize);
            }
        },
        Moving::NavigateBackward => {
            lemma_next_copies(m);
            if m.backward() != m.prev() {
                lemma_at_list_copies(m, (m.current_list_index - 1) as usize);
            }
        },
        Moving::JumpToList(index) => {
            lemma_at_list_copies(m, index);
        },
        Moving::JumpToNextIncompleteList => {
            if let Some(i) = m.next_incomplete() {
                lemma_at_list_copies(m, i as usize);
            }
        },
        Moving::JumpToPrevIncompleteList => {
            if let Some(i) = m.prev_incomplete() {
                lemma_at_list_copies(m, i as usize);
            }
        },
        Moving::JumpToNextIncompleteTask => {
            let place = m.place_ahead(choose|step: int| m.first_open_ahead(step));
            lemma_auto_copied(m.shown(place.0, place.1));
        },
        Moving::GoToFirstItem => {
            lemma_auto_copied(m.shown(0, 0));
        },
        Moving::GoToLastItem => {
            lemma_auto_copied(
                m.shown(
                    (m.document.lists.len() - 1) as usize,
                    app_spec::last_index(m.document.lists.last().items.len()),
                ),
            );
        },
        Moving::FocusItem(_, _) => {},
    }
}

// ----- Tasks that are not done -----------------------------------------

/// Some task of the document is not done.
pub open spec fn has_open(lists: Seq<ListModel>) -> bool {
    exists|p: (usize, usize)| order::kept_place(lists, model::open_item(), p)
}

/// Lemma: the cursor, on a card, is one of the places of the document.
proof fn lemma_cursor_place(m: AppModel)
    requires
        m.valid(),
    ensures
        model::places(m.document.lists, model::any_item()).len() > 0 ==> {
            let all = model::places(m.document.lists, model::any_item());
            let start = match text::first_from(all, app_spec::equal_place(m.cursor()), 0) {
                Some(i) => i,
                None => 0,
            };
            0 <= start < all.len()
        },
{
    let all = model::places(m.document.lists, model::any_item());
    text::lemma_first_from(all, app_spec::equal_place(m.cursor()), 0);
}

/// Lemma: of the numbers from one to `n` at which `p` holds, there is a least
/// one.
proof fn lemma_least(p: spec_fn(int) -> bool, n: int) -> (least: int)
    requires
        1 <= n,
        p(n),
    ensures
        1 <= least <= n,
        p(least),
        forall|s: int| 1 <= s < least ==> !#[trigger] p(s),
    decreases n,
{
    if exists|s: int| 1 <= s < n && #[trigger] p(s) {
        let s = choose|s: int| 1 <= s < n && #[trigger] p(s);
        lemma_least(p, s)
    } else {
        n
    }
}

/// Law: going to the next task that is not done succeeds exactly if there is
/// one, and leads to one; otherwise the cursor stays, and a message says so.
pub proof fn law_next_task_is_found(m: AppModel)
    requires
        m.valid(),
    ensures
        ({
            let after = m.at_next_incomplete_task();
            &&& has_open(m.document.lists) ==> {
                &&& order::kept_place(m.document.lists, model::open_item(), after.cursor())
                &&& after.screen == Screen::Checklist
            }
            &&& !has_open(m.document.lists) ==> after == m.with_error("No unfinished tasks"@)
        }),
{
    let lists = m.document.lists;
    let all = model::places(lists, model::any_item());
    order::law_places_are_exact(lists, model::any_item());
    if exists|step: int| m.first_open_ahead(step) {
        let step = choose|step: int| m.first_open_ahead(step);
        app_laws::lemma_place_ahead(m, step);
        assert(order::kept_place(lists, model::open_item(), m.place_ahead(step)));
    } else if has_open(lists) {
        let p = choose|p: (usize, usize)| order::kept_place(lists, model::open_item(), p);
        assert(order::kept_place(lists, model::any_item(), p));
        let k = all.index_of(p);
        lemma_cursor_place(m);
        let n = all.len() as int;
        let start = match text::first_from(all, app_spec::equal_place(m.cursor()), 0) {
            Some(i) => i,
            None => 0,
        };
        let step = if k > start {
            k - start
        } else {
            k - start + n
        };
        assert((start + step) % n == k) by (nonlinear_arith)
            requires
                0 <= k < n,
                0 <= start < n,
                step == if k > start {
                    k - start
                } else {
                    k - start + n
                },
        ;
        assert(m.place_ahead(step) == p);
        let open_ahead = |s: int| m.open_at(m.place_ahead(s));
        assert(open_ahead(step));
        let least = lemma_least(open_ahead, step);
        assert forall|s: int| 1 <= s < least implies !m.open_at(#[trigger] m.place_ahead(s)) by {
            assert(!open_ahead(s));
        }
        assert(m.first_open_ahead(least));
    }
}

// ----- Reloading -------------------------------------------------------

/// Law: after a reload the cursor is on the list of the same title (of several
/// the one of the same rank), and there on the card of the same line, if the
/// new version has them.
pub proof fn law_cursor_follows_its_card(
    m: AppModel,
    new: DocumentModel,
    card: Item,
    list: int,
    item: int,
)
    requires
        order::countable(new.lists),
        m.current_item() == Some(card),
        app_spec::is_ranked_list(
            new.lists,
            m.document.lists[m.current_list_index as int].title@,
            app_spec::title_rank(
                m.document.lists,
                m.current_list_index as int,
                m.document.lists[m.current_list_index as int].title@,
            ),
            list,
        ),
        text::is_first_from(
            new.lists[list].items,
            document::on_line(card.line_number),
            0,
            item,
        ),
    ensures
        m.remapped(new) == (list as usize, item as usize),
{
    let title = m.document.lists[m.current_list_index as int].title@;
    let rank = app_spec::title_rank(m.document.lists, m.current_list_index as int, title);
    app_write::lemma_ranked_list_is(new.lists, title, rank, list);
    text::lemma_first_from_is(
        new.lists[list].items,
        document::on_line(card.line_number),
        0,
        item,
    );
}

/// Lemma: the rank of a list depends on the titles alone.
proof fn lemma_rank_of_titles(a: Seq<ListModel>, b: Seq<ListModel>, index: int, title: Seq<char>)
    requires
        0 <= index <= a.len(),
        a.len() == b.len(),
        forall|i: int| 0 <= i < a.len() ==> (#[trigger] a[i]).title == b[i].title,
    ensures
        app_spec::title_rank(a, index, title) == app_spec::title_rank(b, index, title),
    decreases index,
{
    if index > 0 {
        assert(a[index - 1].title == b[index - 1].title);
        lemma_rank_of_titles(a, b, index - 1, title);
    }
}

/// Law: where someone else only changed the states of tasks, a reload leaves
/// the cursor where it is, if its card is the first of its list from its line.
pub proof fn law_cursor_stays_where_only_states_changed(m: AppModel, new: DocumentModel)
    requires
        m.valid(),
        order::countable(new.lists),
        app_laws::same_but_states(m.document, new),
        m.current_item() matches Some(card) ==> text::is_first_from(
            m.current_items(),
            document::on_line(card.line_number),
            0,
            m.current_item_index as int,
        ),
    ensures
        m.remapped(new) == m.cursor(),
{
    let at = m.current_list_index as int;
    let title = m.document.lists[at].title@;
    let rank = app_spec::title_rank(m.document.lists, at, title);
    assert forall|i: int| 0 <= i < new.lists.len() implies (#[trigger] m.document.lists[i]).title
        == new.lists[i].title by {
        assert(app_laws::same_list_but_states(m.document.lists[i], new.lists[i]));
    }
    assert(app_laws::same_list_but_states(m.document.lists[at], new.lists[at]));
    lemma_rank_of_titles(m.document.lists, new.lists, at, title);
    assert(app_spec::is_ranked_list(new.lists, title, rank, at));
    match m.current_item() {
        Some(card) => {
            let a = m.current_items();
            let b = new.lists[at].items;
            let p = document::on_line(card.line_number);
            assert forall|j: int| 0 <= j < a.len() implies p(#[trigger] b[j]) == p(a[j]) by {
                assert(app_laws::same_but_state(a[j], b[j]));
            }
            assert(text::is_first_from(b, p, 0, m.current_item_index as int));
            law_cursor_follows_its_card(m, new, card, at, m.current_item_index as int);
        },
        None => {
            app_write::lemma_ranked_list_is(new.lists, title, rank, at);
        },
    }
}

// ----- Messages --------------------------------------------------------

/// Law: a passing message goes when its time is over and not before; an error
/// stays until the next input, however long that takes.
pub proof fn law_messages_expire(m: AppModel, msg: Seq<char>, later: u64)
    requires
        m.now + STATUS_TIMEOUT_MS <= u64::MAX,
    ensures
        m.with_status(msg).status_expiry matches Some(expiry) && (later >= expiry <==> later - m.now
            >= STATUS_TIMEOUT_MS),
        m.with_error(msg).status_expiry is None,
{
}

} // verus!
