//! Laws of finding: where a search, the go-to-task overlay, the next open task
//! and a reload lead, by the places themselves.

use vstd::prelude::*;

use crate::app_state::{AppModel, Screen};
use crate::model::{DocumentModel, Item, ListModel};
use crate::moving_laws::is_open;
use crate::{app_spec, app_write, card_laws, document, model, order, text};

verus! {

/// The place `a` comes before the place `b`: in an earlier list, or earlier in
/// the same one.
pub open spec fn earlier(a: (usize, usize), b: (usize, usize)) -> bool {
    a.0 < b.0 || (a.0 == b.0 && a.1 < b.1)
}

/// There is a card at the place.
pub open spec fn is_place(lists: Seq<ListModel>, p: (usize, usize)) -> bool {
    p.0 < lists.len() && p.1 < lists[p.0 as int].items.len()
}

/// The card at a place.
pub open spec fn card_at(lists: Seq<ListModel>, p: (usize, usize)) -> Item {
    lists[p.0 as int].items[p.1 as int]
}

// ----- Searches --------------------------------------------------------

/// Law: a search begins with an empty query and keeps where the cursor was;
/// giving it up leads back there.
pub proof fn law_search_begins(m: AppModel)
    ensures
        m.searching().screen == Screen::Search,
        m.searching().search_query.len() == 0,
        m.searching().search_origin == m.cursor(),
        m.searching().cursor() == m.cursor(),
        m.searching().search_last == m.search_last,
        m.searching().document == m.document,
        m.search_cancelled().cursor() == m.search_origin,
        m.search_cancelled().screen == Screen::Checklist,
        m.search_cancelled().document == m.document,
{
}

/// Law: typing a query leads to the first card of the document that it finds,
/// and nowhere if it finds none. The search goes on.
pub proof fn law_typing_leads_to_the_first_find(m: AppModel, query: Seq<char>)
    requires
        order::countable(m.document.lists),
    ensures
        ({
            let after = m.with_query(query);
            let lists = m.document.lists;
            let finds = |p: (usize, usize)|
                is_place(lists, p) && text::smart_case_match(
                    model::search_text(card_at(lists, p)),
                    query,
                );
            &&& after.search_query == query
            &&& after.screen == m.screen
            &&& after.search_origin == m.search_origin
            &&& after.document == m.document
            &&& (exists|p: (usize, usize)| #[trigger] finds(p)) ==> finds(after.cursor())
                && forall|p: (usize, usize)| #[trigger]
                finds(p) ==> p == after.cursor() || earlier(after.cursor(), p)
            &&& !(exists|p: (usize, usize)| #[trigger] finds(p)) ==> after.cursor() == m.cursor()
        }),
{
    let lists = m.document.lists;
    let keep = model::found_by_search(query);
    let found = model::places(lists, keep);
    let finds = |p: (usize, usize)|
        is_place(lists, p) && text::smart_case_match(
            model::search_text(card_at(lists, p)),
            query,
        );
    card_laws::law_walk_visits_every_card(lists, keep);
    assert forall|p: (usize, usize)| #[trigger] finds(p) == found.contains(p) by {
        assert(found.contains((p.0, p.1)) == found.contains(p));
    }
    if found.len() > 0 {
        assert(found.contains(found[0]));
        assert(finds(found[0]));
        assert forall|p: (usize, usize)| #[trigger] finds(p) implies p == found[0] || earlier(
            found[0],
            p,
        ) by {
            let k = found.index_of(p);
            assert(found[k] == p);
        }
    }
}

/// Law: committing a search keeps the query for cycling, shows the checklist,
/// leaves the cursor, and says how many cards it finds; an empty query is no
/// search.
pub proof fn law_committing_a_search(m: AppModel)
    ensures
        ({
            let after = m.search_committed();
            let n = m.matches(m.search_query).len();
            &&& after.screen == Screen::Checklist
            &&& after.cursor() == m.cursor()
            &&& after.document == m.document
            &&& m.search_query.len() == 0 ==> after.search_last is None && after.status_message
                == m.status_message
            &&& m.search_query.len() > 0 ==> after.search_last == Some(m.search_query)
            &&& m.search_query.len() > 0 && n == 0 ==> after.status_is_error
                && after.status_message == Some("No matches for \""@ + m.search_query + "\""@)
            &&& m.search_query.len() > 0 && n == 1 ==> !after.status_is_error
                && after.status_message == Some("Match 1/1"@)
            &&& m.search_query.len() > 0 && n > 1 ==> !after.status_is_error
                && after.status_message == Some(
                "Match 1/"@ + text::decimal(n) + " · n/N to cycle"@,
            )
        }),
{
}

/// Law: cycling through the finds of the last search says the number of the one
/// that it leads to, counted from one in document order, and how many there are.
pub proof fn law_cycling_says_where_it_is(m: AppModel, query: Seq<char>, forward: bool)
    requires
        order::countable(m.document.lists),
        m.search_last == Some(query),
        m.matches(query).len() > 0,
    ensures
        ({
            let after = m.search_cycled(forward);
            let found = m.matches(query);
            exists|k: int|
                0 <= k < found.len() && #[trigger] found[k] == after.cursor()
                    && after.status_message == Some(
                    "Match "@ + text::decimal((k + 1) as nat) + "/"@ + text::decimal(found.len()),
                )
        }),
        m.search_cycled(forward).document == m.document,
        m.search_cycled(forward).search_last == m.search_last,
{
    let lists = m.document.lists;
    let keep = model::found_by_search(query);
    let found = m.matches(query);
    card_laws::law_walk_visits_every_card(lists, keep);
    text::lemma_first_from(found, app_spec::after_place(m.cursor()), 0);
    text::lemma_last_before(found, app_spec::before_place(m.cursor()), found.len() as int);
    let target = if forward {
        app_spec::match_after(found, m.cursor())
    } else {
        app_spec::match_before(found, m.cursor())
    };
    assert(0 <= target < found.len());
    let p = found[target];
    assert(found.contains((p.0, p.1)));
    assert(lists[p.0 as int].items.len() <= usize::MAX);
    assert(found[target] == m.search_cycled(forward).cursor());
}

/// Law: forward, cycling leads to the find that comes next after the cursor, or
/// else to the first of all; backward, to the nearest one before it, or else to
/// the last of all. Without a search, or with one that finds nothing, the cursor
/// stays.
pub proof fn law_cycling_leads_to_the_next_find(m: AppModel, query: Seq<char>, k: int)
    requires
        order::countable(m.document.lists),
        m.search_last == Some(query),
        0 <= k < m.matches(query).len(),
    ensures
        ({
            let found = m.matches(query);
            let cur = m.cursor();
            &&& earlier(cur, found[k]) && (forall|j: int|
                0 <= j < k ==> !earlier(cur, #[trigger] found[j])) ==> m.search_cycled(
                true,
            ).cursor() == found[k]
            &&& (forall|j: int| 0 <= j < found.len() ==> !earlier(cur, #[trigger] found[j]))
                ==> m.search_cycled(true).cursor() == found[0]
            &&& earlier(found[k], cur) && (forall|j: int|
                k < j < found.len() ==> !earlier(#[trigger] found[j], cur)) ==> m.search_cycled(
                false,
            ).cursor() == found[k]
            &&& (forall|j: int| 0 <= j < found.len() ==> !earlier(#[trigger] found[j], cur))
                ==> m.search_cycled(false).cursor() == found.last()
        }),
{
    let lists = m.document.lists;
    let keep = model::found_by_search(query);
    let found = m.matches(query);
    let cur = m.cursor();
    let p = app_spec::after_place(cur);
    let q = app_spec::before_place(cur);
    card_laws::law_walk_visits_every_card(lists, keep);
    assert forall|j: int| 0 <= j < found.len() implies is_place(lists, #[trigger] found[j])
        && p(found[j]) == earlier(cur, found[j]) && q(found[j]) == earlier(found[j], cur)
        && lists[found[j].0 as int].items.len() <= usize::MAX by {
        assert(found.contains((found[j].0, found[j].1)));
        assert(lists[found[j].0 as int].items.len() <= usize::MAX);
    }
    if earlier(cur, found[k]) && (forall|j: int|
        0 <= j < k ==> !earlier(cur, #[trigger] found[j])) {
        text::lemma_first_from_is(found, p, 0, k);
    }
    if forall|j: int| 0 <= j < found.len() ==> !earlier(cur, #[trigger] found[j]) {
        text::lemma_first_from_none(found, p, 0);
        assert(is_place(lists, found[0]));
    }
    if earlier(found[k], cur) && (forall|j: int|
        k < j < found.len() ==> !earlier(#[trigger] found[j], cur)) {
        text::lemma_last_before_is(found, q, found.len() as int, k);
    }
    if forall|j: int| 0 <= j < found.len() ==> !earlier(#[trigger] found[j], cur) {
        text::lemma_last_before_none(found, q, found.len() as int);
        assert(is_place(lists, found[found.len() - 1]));
    }
    assert(is_place(lists, found[k]));
}

/// Law: cycling without a search, or with one that finds nothing, leaves the
/// cursor where it is.
pub proof fn law_cycling_needs_a_search(m: AppModel, forward: bool)
    ensures
        m.search_last is None ==> m.search_cycled(forward) == m,
        m.search_last matches Some(query) ==> m.matches(query).len() == 0 ==> m.search_cycled(
            forward,
        ).cursor() == m.cursor() && m.search_cycled(forward).status_is_error
            && m.search_cycled(forward).status_message == Some(
            "No matches for \""@ + query + "\""@,
        ),
{
}

// ----- The go-to-task overlay ------------------------------------------

/// Law: the overlay lists a place exactly if there is a card whose text, its
/// headings included, the filter matches; with no filter, every card.
pub proof fn law_overlay_lists_what_the_filter_matches(m: AppModel, p: (usize, usize))
    requires
        order::countable(m.document.lists),
    ensures
        m.picker_places().contains(p) <==> is_place(m.document.lists, p) && (m.picker_query.len()
            == 0 || text::smart_case_match(
            model::picker_text(card_at(m.document.lists, p)),
            m.picker_query,
        )),
{
    let lists = m.document.lists;
    card_laws::law_walk_visits_every_card(lists, model::any_item());
    card_laws::law_walk_visits_every_card(lists, model::found_by_picker(m.picker_query));
    assert(m.picker_places().contains((p.0, p.1)) == m.picker_places().contains(p));
}

/// Law: the highlight moves by the given number of rows and stops at the first
/// and the last; a filter that changes brings it back to the first.
pub proof fn law_highlight_moves(m: AppModel, delta: int, query: Seq<char>)
    requires
        m.picker_selection < m.picker_places().len() <= usize::MAX,
    ensures
        ({
            let n = m.picker_places().len();
            let row = m.picker_selection + delta;
            &&& 0 <= row < n ==> m.picker_moved(delta).picker_selection == row
            &&& row < 0 ==> m.picker_moved(delta).picker_selection == 0
            &&& row >= n ==> m.picker_moved(delta).picker_selection == n - 1
            &&& m.picker_moved(delta).picker_query == m.picker_query
            &&& m.picker_moved(delta).cursor() == m.cursor()
        }),
        m.with_filter(query).picker_query == query,
        m.with_filter(query).picker_selection == 0,
        m.with_filter(query).cursor() == m.cursor(),
        m.with_filter(query).document == m.document,
{
}

/// Law: picking leads to the card that the highlighted row shows, and shows the
/// checklist; with no such row the overlay just closes.
pub proof fn law_picking(m: AppModel)
    requires
        order::countable(m.document.lists),
    ensures
        m.picker_selection < m.picker_places().len() ==> m.picked().cursor()
            == m.picker_places()[m.picker_selection as int] && m.picked().screen
            == Screen::Checklist,
        m.picker_selection >= m.picker_places().len() ==> m.picked().cursor() == m.cursor()
            && m.picked().screen == m.screen_before_confirm,
        m.picked().document == m.document,
{
    if m.picker_selection < m.picker_places().len() {
        let p = m.picker_places()[m.picker_selection as int];
        assert(m.picker_places().contains(p));
        law_overlay_lists_what_the_filter_matches(m, p);
        assert(m.document.lists[p.0 as int].items.len() <= usize::MAX);
    }
}

// ----- The next open task ----------------------------------------------

/// Lemma: going round.
proof fn lemma_round(start: int, s: int, n: int)
    requires
        0 <= start < n,
        1 <= s <= n,
    ensures
        (start + s) % n == if start + s < n {
            start + s
        } else {
            start + s - n
        },
{
    if start + s < n {
        assert((start + s) % n == start + s) by (nonlinear_arith)
            requires
                0 <= start + s < n,
        ;
    } else {
        assert((start + s) % n == start + s - n) by (nonlinear_arith)
            requires
                n <= start + s < 2 * n,
        ;
    }
}

/// Law: `Tab` leads to the nearest task after the cursor that is not done, over
/// all lists; with none after it, to the first one of the document; with none at
/// all the cursor stays, and a message says so.
pub proof fn law_next_open_task(m: AppModel, p: (usize, usize))
    requires
        order::countable(m.document.lists),
        is_place(m.document.lists, m.cursor()),
        is_place(m.document.lists, p),
        is_open(card_at(m.document.lists, p)),
    ensures
        ({
            let lists = m.document.lists;
            let after = m.at_next_incomplete_task().cursor();
            &&& is_place(lists, after) && is_open(card_at(lists, after))
            &&& earlier(m.cursor(), p) ==> earlier(m.cursor(), after) && (after == p || earlier(
                after,
                p,
            ))
            &&& !earlier(m.cursor(), after) ==> after == p || earlier(after, p)
            &&& m.at_next_incomplete_task().screen == Screen::Checklist
            &&& m.at_next_incomplete_task().document == m.document
        }),
{
    let lists = m.document.lists;
    let all = model::places(lists, model::any_item());
    let n = all.len() as int;
    let cur = m.cursor();
    card_laws::law_walk_visits_every_card(lists, model::any_item());
    assert(all.contains((cur.0, cur.1)));
    assert(all.contains((p.0, p.1)));
    let same = app_spec::equal_place(cur);
    let c = all.index_of(cur);
    assert(all[c] == cur);
    assert forall|j: int| 0 <= j < c implies !same(#[trigger] all[j]) by {
        assert(earlier(all[j], all[c]));
    }
    text::lemma_first_from_is(all, same, 0, c);
    let j = all.index_of(p);
    assert(all[j] == p);
    let s = if j > c {
        j - c
    } else {
        j - c + n
    };
    lemma_round(c, s, n);
    assert(m.place_ahead(s) == p);
    lemma_open_at(m, p);
    let open_ahead = |k: int| m.open_at(m.place_ahead(k));
    assert(open_ahead(s));
    let least = lemma_least(open_ahead, s);
    assert(m.first_open_ahead(least)) by {
        assert forall|k: int| 1 <= k < least implies !m.open_at(#[trigger] m.place_ahead(k)) by {
            assert(!open_ahead(k));
        }
    }
    let step = choose|step: int| m.first_open_ahead(step);
    assert(m.first_open_ahead(step));
    lemma_round(c, step, n);
    let k = (c + step) % n;
    let after = m.place_ahead(step);
    assert(after == all[k]);
    assert(all.contains((after.0, after.1)));
    lemma_open_at(m, after);
    if step > s {
        assert(!m.open_at(m.place_ahead(s)));
    }
    assert(m.at_next_incomplete_task().cursor() == after);
    if j > c {
        assert(k == c + step);
        assert(earlier(all[c], all[k]));
        if k < j {
            assert(earlier(all[k], all[j]));
        }
    } else if c + step < n {
        assert(earlier(all[c], all[k]));
    } else {
        assert(k <= j);
        if k < j {
            assert(earlier(all[k], all[j]));
        }
        if k < c {
            assert(earlier(all[k], all[c]));
        }
    }
    if k < j {
        assert(earlier(all[k], all[j]));
    }
}

/// Lemma: which places are open.
proof fn lemma_open_at(m: AppModel, p: (usize, usize))
    requires
        is_place(m.document.lists, p),
    ensures
        m.open_at(p) == is_open(card_at(m.document.lists, p)),
{
    card_laws::law_open_and_progressed(card_at(m.document.lists, p).kind);
}

/// Lemma: of the numbers from one to `n` at which `p` holds, there is a least
/// one.
proof fn lemma_least(p: spec_fn(int) -> bool, n: int) -> (least: int)
    requires
        1 <= n,
        p(n),
    ensures
        1 <= least <= n,
        p(least),
        forall|s: int| 1 <= s < least ==> !#[trigger] p(s),
    decreases n,
{
    if exists|s: int| 1 <= s < n && #[trigger] p(s) {
        let s = choose|s: int| 1 <= s < n && #[trigger] p(s);
        lemma_least(p, s)
    } else {
        n
    }
}

// ----- Reloading -------------------------------------------------------

/// Law: the rank of a list is the number of lists before it that have its
/// title.
pub proof fn law_rank_counts_titles(lists: Seq<ListModel>, index: int, title: Seq<char>)
    requires
        0 <= index <= lists.len(),
    ensures
        app_spec::title_rank(lists, index, title) == lists.take(index).filter(
            |l: ListModel| l.title@ == title,
        ).len(),
    decreases index,
{
    let p = |l: ListModel| l.title@ == title;
    let taken = lists.take(index);
    reveal(Seq::filter);
    if index > 0 {
        law_rank_counts_titles(lists, index - 1, title);
        assert(taken.drop_last() =~= lists.take(index - 1));
        assert(taken.last() == lists[index - 1]);
    }
}

/// Law: after a reload the cursor is in the list that has the title of the one
/// it was in and as many lists of that title before it, and there on the first
/// card from the line of its card; what is not found falls back to the first
/// list, or the first card.
pub proof fn law_reload_finds_the_card(m: AppModel, new: DocumentModel, card: Item, list: int)
    requires
        order::countable(new.lists),
        m.current_list_index < m.document.lists.len(),
        m.current_item() == Some(card),
        0 <= list < new.lists.len(),
    ensures
        ({
            let title = m.document.lists[m.current_list_index as int].title@;
            let named = |l: ListModel| l.title@ == title;
            let rank = m.document.lists.take(m.current_list_index as int).filter(named).len();
            let fits = |l: int|
                0 <= l < new.lists.len() && new.lists[l].title@ == title && new.lists.take(
                    l,
                ).filter(named).len() == rank;
            let at = m.remapped(new);
            &&& fits(list) ==> at.0 == list
            &&& (forall|l: int| !#[trigger] fits(l)) ==> at.0 == 0
            &&& at.0 < new.lists.len()
            &&& (exists|i: int|
                0 <= i < new.lists[at.0 as int].items.len() && (
                #[trigger] new.lists[at.0 as int].items[i]).line_number == card.line_number) ==> {
                &&& at.1 < new.lists[at.0 as int].items.len()
                &&& new.lists[at.0 as int].items[at.1 as int].line_number == card.line_number
                &&& forall|i: int|
                    0 <= i < at.1 ==> (#[trigger] new.lists[at.0 as int].items[i]).line_number
                        != card.line_number
            }
            &&& !(exists|i: int|
                0 <= i < new.lists[at.0 as int].items.len() && (
                #[trigger] new.lists[at.0 as int].items[i]).line_number == card.line_number)
                ==> at.1 == 0
        }),
{
    let here = m.current_list_index as int;
    let title = m.document.lists[here].title@;
    let named = |l: ListModel| l.title@ == title;
    law_rank_counts_titles(m.document.lists, here, title);
    let rank = app_spec::title_rank(m.document.lists, here, title);
    let fits = |l: int|
        0 <= l < new.lists.len() && new.lists[l].title@ == title && new.lists.take(l).filter(
            named,
        ).len() == m.document.lists.take(here).filter(named).len();
    assert forall|l: int| #[trigger] fits(l) == app_spec::is_ranked_list(
        new.lists,
        title,
        rank,
        l,
    ) by {
        if 0 <= l < new.lists.len() {
            law_rank_counts_titles(new.lists, l, title);
        }
    }
    if fits(list) {
        app_write::lemma_ranked_list_is(new.lists, title, rank, list);
    }
    if exists|l: int| app_spec::is_ranked_list(new.lists, title, rank, l) {
        let l = choose|l: int| app_spec::is_ranked_list(new.lists, title, rank, l);
        assert(fits(l));
    }
    let found = app_spec::ranked_list(new.lists, title, rank);
    let items = new.lists[found].items;
    assert(0 <= found < new.lists.len());
    assert(items.len() <= usize::MAX);
    text::lemma_first_from(items, document::on_line(card.line_number), 0);
    assert forall|i: int| 0 <= i < items.len() implies (document::on_line(card.line_number))(
        #[trigger] items[i],
    ) == (items[i].line_number == card.line_number) by {}
}

} // verus!
