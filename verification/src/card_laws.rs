//! Laws of cards: which texts a search and the go-to-task filter look at, which
//! cards they list, and what snapshots and resets do to tasks.

use vstd::prelude::*;

use crate::model::{BodySpan, Item, ItemKind, ListModel, SubHeading, TaskState};
use crate::{model, order, text, text_laws};

verus! {

// ----- The text of a card ----------------------------------------------

/// Lemma: parts are appended one after the other, a space before each.
proof fn lemma_parts(base: Seq<char>, parts: Seq<String>)
    ensures
        model::with_parts(base, parts) == base + Seq::new(
            parts.len(),
            |i: int| " "@ + parts[i]@,
        ).flatten(),
    decreases parts.len(),
{
    let pieces = Seq::new(parts.len(), |i: int| " "@ + parts[i]@);
    if parts.len() == 0 {
        assert(base + pieces.flatten() =~= base);
    } else {
        let front = parts.drop_last();
        let before = Seq::new(front.len(), |i: int| " "@ + front[i]@);
        lemma_parts(base, front);
        assert(pieces =~= before.push(" "@ + parts.last()@));
        before.lemma_flatten_push(" "@ + parts.last()@);
        assert(base + before.flatten() + " "@ + parts.last()@ =~= base + (before.flatten() + (" "@
            + parts.last()@)));
    }
}

/// Lemma: headings are appended one after the other, a space before each.
proof fn lemma_headings(base: Seq<char>, headings: Seq<SubHeading>)
    ensures
        model::with_headings(base, headings) == base + Seq::new(
            headings.len(),
            |i: int| " "@ + headings[i].text@,
        ).flatten(),
    decreases headings.len(),
{
    let pieces = Seq::new(headings.len(), |i: int| " "@ + headings[i].text@);
    if headings.len() == 0 {
        assert(base + pieces.flatten() =~= base);
    } else {
        let front = headings.drop_last();
        let before = Seq::new(front.len(), |i: int| " "@ + front[i].text@);
        lemma_headings(base, front);
        let last = headings.last().text@;
        assert(pieces =~= before.push(" "@ + last));
        before.lemma_flatten_push(" "@ + last);
        assert(base + before.flatten() + " "@ + last =~= base + (before.flatten() + (" "@ + last)));
    }
}

/// Lemma: each of several pieces stands in what they make together.
proof fn lemma_piece_of_flat(pieces: Seq<Seq<char>>, k: int) -> (r: (Seq<char>, Seq<char>))
    requires
        0 <= k < pieces.len(),
    ensures
        pieces.flatten() == r.0 + pieces[k] + r.1,
    decreases pieces.len(),
{
    if k == 0 {
        assert(pieces.flatten() =~= Seq::<char>::empty() + pieces[0]
            + pieces.drop_first().flatten());
        (Seq::empty(), pieces.drop_first().flatten())
    } else {
        let r = lemma_piece_of_flat(pieces.drop_first(), k - 1);
        assert(pieces.drop_first()[k - 1] == pieces[k]);
        assert(pieces.flatten() =~= (pieces[0] + r.0) + pieces[k] + r.1);
        (pieces[0] + r.0, r.1)
    }
}

/// Law: the text that a search looks at is the title, where the card has one,
/// and a space; the card's text; and then every piece of inline code and every
/// code block, in order, a space before each.
pub proof fn law_search_looks_at_every_part(item: Item)
    ensures
        model::search_text(item) == (match item.header {
            Some(h) => h@ + " "@,
            None => Seq::empty(),
        }) + item.display_text@ + Seq::new(
            item.code_spans@.len(),
            |i: int| " "@ + item.code_spans@[i]@,
        ).flatten() + Seq::new(
            item.code_blocks@.len(),
            |i: int| " "@ + item.code_blocks@[i]@,
        ).flatten(),
{
    let head = match item.header {
        Some(h) => h@ + " "@ + item.display_text@,
        None => item.display_text@,
    };
    lemma_parts(head, item.code_spans@);
    lemma_parts(model::with_parts(head, item.code_spans@), item.code_blocks@);
    if item.header is None {
        assert(Seq::<char>::empty() + item.display_text@ =~= item.display_text@);
    }
}

/// Law: the text that the go-to-task filter looks at is the one that a search
/// looks at and then every heading that the card is under, outermost first, a
/// space before each.
pub proof fn law_filter_looks_at_every_heading(item: Item)
    ensures
        model::picker_text(item) == model::search_text(item) + Seq::new(
            item.section@.len(),
            |i: int| " "@ + item.section@[i].text@,
        ).flatten(),
{
    lemma_headings(model::search_text(item), item.section@);
}

/// The text is one of those that a card is searched by: its title, its text,
/// or a piece of its code.
pub open spec fn is_part(item: Item, part: Seq<char>) -> bool {
    ||| item.header matches Some(h) && h@ == part
    ||| item.display_text@ == part
    ||| exists|k: int| 0 <= k < item.code_spans@.len() && (#[trigger] item.code_spans@[k])@ == part
    ||| exists|k: int|
        0 <= k < item.code_blocks@.len() && (#[trigger] item.code_blocks@[k])@ == part
}

/// Lemma: every part of a card is a piece of the text that a search looks at.
proof fn lemma_part_is_piece(item: Item, part: Seq<char>) -> (r: (Seq<char>, Seq<char>))
    requires
        is_part(item, part),
    ensures
        model::search_text(item) == r.0 + part + r.1,
{
    law_search_looks_at_every_part(item);
    let head = match item.header {
        Some(h) => h@ + " "@,
        None => Seq::empty(),
    };
    let shown = item.display_text@;
    let spans = Seq::new(item.code_spans@.len(), |i: int| " "@ + item.code_spans@[i]@);
    let blocks = Seq::new(item.code_blocks@.len(), |i: int| " "@ + item.code_blocks@[i]@);
    let whole = model::search_text(item);
    assert(whole == head + shown + spans.flatten() + blocks.flatten());
    if item.header matches Some(h) && h@ == part {
        let after = " "@ + shown + spans.flatten() + blocks.flatten();
        assert(whole =~= Seq::<char>::empty() + part + after);
        (Seq::empty(), after)
    } else if shown == part {
        assert(whole =~= head + part + (spans.flatten() + blocks.flatten()));
        (head, spans.flatten() + blocks.flatten())
    } else if exists|k: int|
        0 <= k < item.code_spans@.len() && (#[trigger] item.code_spans@[k])@ == part {
        let k = choose|k: int|
            0 <= k < item.code_spans@.len() && (#[trigger] item.code_spans@[k])@ == part;
        let r = lemma_piece_of_flat(spans, k);
        let before = head + shown + r.0 + " "@;
        assert(spans[k] == " "@ + part);
        assert(whole =~= before + part + (r.1 + blocks.flatten()));
        (before, r.1 + blocks.flatten())
    } else {
        let k = choose|k: int|
            0 <= k < item.code_blocks@.len() && (#[trigger] item.code_blocks@[k])@ == part;
        let r = lemma_piece_of_flat(blocks, k);
        let before = head + shown + spans.flatten() + r.0 + " "@;
        assert(blocks[k] == " "@ + part);
        assert(whole =~= before + part + r.1);
        (before, r.1)
    }
}

/// Law: a search finds a card by any piece of its title, of its text, or of any
/// of its code, if the query has an upper-case character; and so does the
/// go-to-task filter.
pub proof fn law_card_is_found_by_any_part(item: Item, part: Seq<char>, query: Seq<char>, i: int)
    requires
        is_part(item, part),
        0 <= i < query.len(),
        text::is_uppercase_char(query[i]),
        exists|a: Seq<char>, b: Seq<char>| part == #[trigger] (a + query + b),
    ensures
        (model::found_by_search(query))(item),
        (model::found_by_picker(query))(item),
{
    let r = lemma_part_is_piece(item, part);
    text_laws::law_pieces_are_found(r.0, part, r.1, query, i);
    law_filter_looks_at_every_heading(item);
    let added = Seq::new(item.section@.len(), |k: int| " "@ + item.section@[k].text@).flatten();
    assert(model::picker_text(item) =~= r.0 + part + (r.1 + added));
    text_laws::law_pieces_are_found(r.0, part, r.1 + added, query, i);
}

/// Law: the text of every heading that a card is under, at any depth, stands
/// behind a space in the text that the go-to-task filter looks at; so the filter
/// keeps the card by any piece of any of these headings that has an upper-case
/// character.
pub proof fn law_card_is_kept_by_any_heading(item: Item, k: int, query: Seq<char>, i: int)
    requires
        0 <= k < item.section@.len(),
    ensures
        exists|a: Seq<char>, b: Seq<char>|
            model::picker_text(item) == #[trigger] (a + (" "@ + item.section@[k].text@) + b)
                && a.len() >= model::search_text(item).len(),
        0 <= i < query.len() && text::is_uppercase_char(query[i]) && (exists|
            a: Seq<char>,
            b: Seq<char>,
        | item.section@[k].text@ == #[trigger] (a + query + b)) ==> (model::found_by_picker(
            query,
        ))(item),
{
    law_filter_looks_at_every_heading(item);
    let pieces = Seq::new(item.section@.len(), |n: int| " "@ + item.section@[n].text@);
    let r = lemma_piece_of_flat(pieces, k);
    let heading = item.section@[k].text@;
    let before = model::search_text(item) + r.0;
    assert(pieces[k] == " "@ + heading);
    assert(model::picker_text(item) =~= before + (" "@ + heading) + r.1);
    if 0 <= i < query.len() && text::is_uppercase_char(query[i]) && (exists|
        a: Seq<char>,
        b: Seq<char>,
    | heading == #[trigger] (a + query + b)) {
        assert(model::picker_text(item) =~= (before + " "@) + heading + r.1);
        text_laws::law_pieces_are_found(before + " "@, heading, r.1, query, i);
    }
}

/// Law: what a search or the filter finds by a query with an upper-case
/// character is a piece of what it looks at.
pub proof fn law_exact_finds_are_pieces(item: Item, query: Seq<char>, i: int)
    requires
        0 <= i < query.len(),
        text::is_uppercase_char(query[i]),
    ensures
        (model::found_by_search(query))(item) <==> exists|a: Seq<char>, b: Seq<char>|
            model::search_text(item) == #[trigger] (a + query + b),
        (model::found_by_picker(query))(item) <==> exists|a: Seq<char>, b: Seq<char>|
            model::picker_text(item) == #[trigger] (a + query + b),
{
    text_laws::law_upper_case_makes_a_search_exact(model::search_text(item), query, i);
    text_laws::law_upper_case_makes_a_search_exact(model::picker_text(item), query, i);
}

/// Law: what a search or the filter finds by any other query is a piece of the
/// lower-case form of what it looks at.
pub proof fn law_other_finds_ignore_case(item: Item, query: Seq<char>)
    requires
        forall|i: int| 0 <= i < query.len() ==> !text::is_uppercase_char(#[trigger] query[i]),
    ensures
        (model::found_by_search(query))(item) <==> query.len() > 0 && exists|
            a: Seq<char>,
            b: Seq<char>,
        | text::lowercase(model::search_text(item)) == #[trigger] (a + query + b),
        (model::found_by_picker(query))(item) <==> query.len() > 0 && exists|
            a: Seq<char>,
            b: Seq<char>,
        | text::lowercase(model::picker_text(item)) == #[trigger] (a + query + b),
{
    text_laws::law_other_searches_ignore_case(model::search_text(item), query);
    text_laws::law_other_searches_ignore_case(model::picker_text(item), query);
}

/// Law: a message names a card by its title, where it has one, and by its text
/// otherwise.
pub proof fn law_card_is_named(item: Item)
    ensures
        item.header matches Some(h) ==> model::item_name(item) == h@,
        item.header is None ==> model::item_name(item) == item.display_text@,
{
}

/// Law: the links of a body are those of its parts one after the other: a link
/// adds its target, and nothing else adds any.
pub proof fn law_links_are_listed_in_order(a: Seq<BodySpan>, b: Seq<BodySpan>)
    ensures
        model::link_urls(a + b) == model::link_urls(a) + model::link_urls(b),
        a.len() == 1 ==> model::link_urls(a) == (match a[0] {
            BodySpan::Link { url, .. } => seq![url],
            _ => Seq::empty(),
        }),
        a.len() == 0 ==> model::link_urls(a).len() == 0,
    decreases b.len(),
{
    if a.len() == 1 {
        assert(model::link_urls(a.drop_last()) =~= Seq::empty());
        assert(model::link_urls(a) =~= (match a[0] {
            BodySpan::Link { url, .. } => seq![url],
            _ => Seq::empty(),
        }));
    }
    if b.len() == 0 {
        assert(a + b =~= a);
    } else {
        law_links_are_listed_in_order(a, b.drop_last());
        assert((a + b).drop_last() =~= a + b.drop_last());
        assert((a + b).last() == b.last());
        assert(model::link_urls(a + b) =~= model::link_urls(a) + model::link_urls(b));
    }
}

// ----- Which cards are listed ------------------------------------------

/// Law: a walk over the document visits a place exactly if there is a card that
/// is to be kept, each place once, list by list and card by card.
pub proof fn law_walk_visits_every_card(lists: Seq<ListModel>, keep: spec_fn(Item) -> bool)
    requires
        order::countable(lists),
    ensures
        forall|list: usize, item: usize| #[trigger]
            model::places(lists, keep).contains((list, item)) <==> list < lists.len() && item
                < lists[list as int].items.len() && keep(lists[list as int].items[item as int]),
        forall|a: int, b: int|
            0 <= a < b < model::places(lists, keep).len() ==> {
                let p = #[trigger] model::places(lists, keep)[a];
                let q = #[trigger] model::places(lists, keep)[b];
                p.0 < q.0 || (p.0 == q.0 && p.1 < q.1)
            },
{
    order::law_places_are_exact(lists, keep);
    order::law_places_are_in_order(lists, keep);
    assert forall|list: usize, item: usize| #[trigger]
        model::places(lists, keep).contains((list, item)) <==> list < lists.len() && item
            < lists[list as int].items.len() && keep(lists[list as int].items[item as int]) by {
        if list < lists.len() && item < lists[list as int].items.len() && keep(
            lists[list as int].items[item as int],
        ) {
            assert(order::kept_place(lists, keep, (list, item)));
        }
        if model::places(lists, keep).contains((list, item)) {
            let k = model::places(lists, keep).index_of((list, item));
            assert(order::kept_place(lists, keep, model::places(lists, keep)[k]));
        }
    }
}

/// Law: a sub-section begins at each card that is under a heading, and is the
/// first of its list or has another heading, by level or text, than the card
/// before it or another number of them.
pub proof fn law_sections_begin_at_new_headings(items: Seq<Item>, i: int)
    requires
        items.len() <= usize::MAX,
        0 <= i < items.len(),
    ensures
        model::section_starts(items).contains(i as usize) <==> {
            let own = items[i].section@;
            let before = items[i - 1].section@;
            own.len() > 0 && (i == 0 || own.len() != before.len() || exists|k: int|
                0 <= k < own.len() && ((#[trigger] own[k]).level != before[k].level || own[k].text@
                    != before[k].text@))
        },
        forall|a: int, b: int|
            0 <= a < b < model::section_starts(items).len() ==> (#[trigger] model::section_starts(
                items,
            )[a]) < (#[trigger] model::section_starts(items)[b]),
{
    order::law_section_starts_are_exact(items);
    let starts = model::section_starts(items);
    if starts.contains(i as usize) {
        let k = starts.index_of(i as usize);
        assert(starts[k] == i as usize);
        assert(model::starts_section(items, i));
    }
    assert(model::starts_section(items, i) ==> starts.contains(i as usize));
    let own = items[i].section@;
    if i > 0 {
        let before = items[i - 1].section@;
        assert(model::same_section(own, before) == !(own.len() != before.len() || exists|k: int|
            0 <= k < own.len() && ((#[trigger] own[k]).level != before[k].level || own[k].text@
                != before[k].text@)));
    }
}

// ----- Tasks -----------------------------------------------------------

/// Law: a task is open exactly if it is a task and not done, and has progressed
/// exactly if it is one and not untouched.
pub proof fn law_open_and_progressed(kind: ItemKind)
    ensures
        model::open_task(kind) <==> (kind matches ItemKind::Checkbox(state) && state
            != TaskState::Done),
        model::progressed(kind) <==> (kind matches ItemKind::Checkbox(state) && state
            != TaskState::NotStarted),
{
    if let ItemKind::Checkbox(state) = kind {
        match state {
            TaskState::NotStarted => {},
            TaskState::Started => {},
            TaskState::Done => {},
        }
    }
}

/// Law: the first open task of a list is a task that is not done, with none
/// before it; a list is done exactly if it has none.
pub proof fn law_first_open_task(items: Seq<Item>)
    ensures
        model::first_open(items) matches Some(i) ==> 0 <= i < items.len() && (items[i].kind
            matches ItemKind::Checkbox(state) && state != TaskState::Done) && forall|j: int|
            0 <= j < i ==> !((#[trigger] items[j]).kind matches ItemKind::Checkbox(state) && state
                != TaskState::Done),
        model::all_done(items) <==> forall|j: int|
            0 <= j < items.len() ==> !((#[trigger] items[j]).kind matches ItemKind::Checkbox(
                state,
            ) && state != TaskState::Done),
        model::first_open(items) is None <==> model::all_done(items),
{
    text::lemma_first_from(items, model::open_item(), 0);
    assert forall|j: int| 0 <= j < items.len() implies model::open_task(
        (#[trigger] items[j]).kind,
    ) == (items[j].kind matches ItemKind::Checkbox(state) && state != TaskState::Done) by {
        law_open_and_progressed(items[j].kind);
    }
    assert forall|j: int| 0 <= j < items.len() implies (model::open_item())(#[trigger] items[j])
        == model::open_task(items[j].kind) by {}
}

/// Law: setting the kind of one card changes nothing else of the document.
pub proof fn law_one_kind_is_set(
    lists: Seq<ListModel>,
    list: int,
    item: int,
    kind: ItemKind,
    l: int,
    i: int,
)
    requires
        0 <= list < lists.len(),
        0 <= item < lists[list].items.len(),
        0 <= l < lists.len(),
        0 <= i < lists[l].items.len(),
    ensures
        ({
            let after = model::set_kind(lists, list, item, kind);
            &&& after.len() == lists.len()
            &&& after[l].title == lists[l].title
            &&& after[l].banner == lists[l].banner
            &&& after[l].items.len() == lists[l].items.len()
            &&& (l, i) != (list, item) ==> after[l].items[i] == lists[l].items[i]
            &&& (l, i) == (list, item) ==> after[l].items[i] == (Item { kind, ..lists[l].items[i] })
        }),
{
}

/// Law: a reset sets every task back, and leaves everything else alone.
pub proof fn law_reset_sets_every_task_back(lists: Seq<ListModel>, l: int, i: int)
    requires
        0 <= l < lists.len(),
        0 <= i < lists[l].items.len(),
    ensures
        ({
            let after = model::cleared(lists);
            let card = lists[l].items[i];
            &&& after.len() == lists.len()
            &&& after[l].title == lists[l].title
            &&& after[l].banner == lists[l].banner
            &&& after[l].items.len() == lists[l].items.len()
            &&& card.kind is Checkbox ==> after[l].items[i] == (Item {
                kind: ItemKind::Checkbox(TaskState::NotStarted),
                ..card
            })
            &&& !(card.kind is Checkbox) ==> after[l].items[i] == card
        }),
{
}

/// Law: applying a snapshot brings a task into the state that the last entry
/// for its line has, and leaves every other card alone.
pub proof fn law_snapshot_is_applied_by_line(
    lists: Seq<ListModel>,
    snapshot: Seq<(usize, TaskState)>,
    l: int,
    i: int,
    k: int,
)
    requires
        0 <= l < lists.len(),
        0 <= i < lists[l].items.len(),
        0 <= k < snapshot.len(),
    ensures
        ({
            let after = model::restored(lists, snapshot);
            let card = lists[l].items[i];
            &&& after.len() == lists.len()
            &&& after[l].title == lists[l].title
            &&& after[l].banner == lists[l].banner
            &&& after[l].items.len() == lists[l].items.len()
            &&& card.kind is Checkbox && snapshot[k].0 == card.line_number && (forall|n: int|
                k < n < snapshot.len() ==> (#[trigger] snapshot[n]).0 != card.line_number)
                ==> after[l].items[i] == (Item { kind: ItemKind::Checkbox(snapshot[k].1), ..card })
            &&& !(card.kind is Checkbox) ==> after[l].items[i] == card
            &&& (forall|n: int|
                0 <= n < snapshot.len() ==> (#[trigger] snapshot[n]).0 != card.line_number)
                ==> after[l].items[i] == card
        }),
{
    let card = lists[l].items[i];
    lemma_wanted_is_last(snapshot, card.line_number);
    if snapshot[k].0 == card.line_number && (forall|n: int|
        k < n < snapshot.len() ==> (#[trigger] snapshot[n]).0 != card.line_number) {
        assert(model::wanted_state(snapshot, card.line_number) == Some(snapshot[k].1));
    }
}

/// Lemma: of the entries for a line, the last one is wanted.
proof fn lemma_wanted_is_last(snapshot: Seq<(usize, TaskState)>, line: usize)
    ensures
        forall|k: int|
            0 <= k < snapshot.len() && (#[trigger] snapshot[k]).0 == line && (forall|n: int|
                k < n < snapshot.len() ==> (#[trigger] snapshot[n]).0 != line)
                ==> model::wanted_state(snapshot, line) == Some(snapshot[k].1),
        (forall|n: int| 0 <= n < snapshot.len() ==> (#[trigger] snapshot[n]).0 != line)
            ==> model::wanted_state(snapshot, line) is None,
    decreases snapshot.len(),
{
    if snapshot.len() > 0 {
        let front = snapshot.drop_last();
        let last = snapshot.len() - 1;
        lemma_wanted_is_last(front, line);
        assert forall|k: int|
            0 <= k < snapshot.len() && (#[trigger] snapshot[k]).0 == line && (forall|n: int|
                k < n < snapshot.len() ==> (#[trigger] snapshot[n]).0 != line) implies
            model::wanted_state(snapshot, line) == Some(snapshot[k].1) by {
            if k < last {
                assert(snapshot[last].0 != line);
                assert(front[k] == snapshot[k]);
                assert forall|n: int| k < n < front.len() implies (#[trigger] front[n]).0
                    != line by {
                    assert(front[n] == snapshot[n]);
                }
            }
        }
        if forall|n: int| 0 <= n < snapshot.len() ==> (#[trigger] snapshot[n]).0 != line {
            assert(snapshot[last].0 != line);
            assert forall|n: int| 0 <= n < front.len() implies (#[trigger] front[n]).0 != line by {
                assert(front[n] == snapshot[n]);
            }
        }
    }
}

/// Law: a snapshot has an entry for each task, of its line and its state, in
/// document order, and none for anything else: that of two parts of a document
/// is that of the first followed by that of the second.
pub proof fn law_snapshot_has_every_task(a: Seq<ListModel>, b: Seq<ListModel>)
    ensures
        model::task_states(a + b) == model::task_states(a) + model::task_states(b),
        a.len() == 0 ==> model::task_states(a).len() == 0,
        a.len() == 1 ==> model::task_states(a) == model::list_states(a[0].items),
    decreases b.len(),
{
    if a.len() == 1 {
        assert(model::task_states(a.drop_last()) =~= Seq::empty());
        assert(model::task_states(a) =~= model::list_states(a[0].items));
    }
    if b.len() == 0 {
        assert(a + b =~= a);
    } else {
        law_snapshot_has_every_task(a, b.drop_last());
        assert((a + b).drop_last() =~= a + b.drop_last());
        assert((a + b).last() == b.last());
        assert(model::task_states(a + b) =~= model::task_states(a) + model::task_states(b));
    }
}

/// Law: as `law_snapshot_has_every_task`, for the cards of one list.
pub proof fn law_snapshot_of_a_list(a: Seq<Item>, b: Seq<Item>)
    ensures
        model::list_states(a + b) == model::list_states(a) + model::list_states(b),
        a.len() == 0 ==> model::list_states(a).len() == 0,
        a.len() == 1 ==> model::list_states(a) == (match a[0].kind {
            ItemKind::Checkbox(state) => seq![(a[0].line_number, state)],
            ItemKind::DisplayOnly => Seq::empty(),
        }),
    decreases b.len(),
{
    if a.len() == 1 {
        assert(model::list_states(a.drop_last()) =~= Seq::empty());
        assert(model::list_states(a) =~= (match a[0].kind {
            ItemKind::Checkbox(state) => seq![(a[0].line_number, state)],
            ItemKind::DisplayOnly => Seq::empty(),
        }));
    }
    if b.len() == 0 {
        assert(a + b =~= a);
    } else {
        law_snapshot_of_a_list(a, b.drop_last());
        assert((a + b).drop_last() =~= a + b.drop_last());
        assert((a + b).last() == b.last());
        assert(model::list_states(a + b) =~= model::list_states(a) + model::list_states(b));
    }
}

/// Law: the lines that a snapshot changes are, in document order, those of the
/// tasks whose kind is another one once it is applied: those of two parts of a
/// document are those of the first followed by those of the second.
pub proof fn law_changes_are_listed(
    a: Seq<ListModel>,
    b: Seq<ListModel>,
    snapshot: Seq<(usize, TaskState)>,
)
    ensures
        model::changes(a + b, snapshot) == model::changes(a, snapshot) + model::changes(
            b,
            snapshot,
        ),
        a.len() == 0 ==> model::changes(a, snapshot).len() == 0,
        a.len() == 1 ==> model::changes(a, snapshot) == model::list_changes(a[0].items, snapshot),
    decreases b.len(),
{
    if a.len() == 1 {
        assert(model::changes(a.drop_last(), snapshot) =~= Seq::empty());
        assert(model::changes(a, snapshot) =~= model::list_changes(a[0].items, snapshot));
    }
    if b.len() == 0 {
        assert(a + b =~= a);
    } else {
        law_changes_are_listed(a, b.drop_last(), snapshot);
        assert((a + b).drop_last() =~= a + b.drop_last());
        assert((a + b).last() == b.last());
        assert(model::changes(a + b, snapshot) =~= model::changes(a, snapshot) + model::changes(
            b,
            snapshot,
        ));
    }
}

/// Law: as `law_changes_are_listed`, for the cards of one list.
pub proof fn law_changes_of_a_list(
    a: Seq<Item>,
    b: Seq<Item>,
    title: String,
    snapshot: Seq<(usize, TaskState)>,
)
    ensures
        model::list_changes(a + b, snapshot) == model::list_changes(a, snapshot)
            + model::list_changes(b, snapshot),
        a.len() == 0 ==> model::list_changes(a, snapshot).len() == 0,
        a.len() == 1 ==> {
            let whole = seq![ListModel { title, banner: None, items: a }];
            model::list_changes(a, snapshot) == if model::restored(whole, snapshot)[0].items[0].kind
                != a[0].kind {
                seq![a[0].line_number]
            } else {
                Seq::empty()
            }
        },
    decreases b.len(),
{
    if a.len() == 1 {
        assert(model::list_changes(a.drop_last(), snapshot) =~= Seq::empty());
        let whole = seq![ListModel { title, banner: None, items: a }];
        assert(model::restored(whole, snapshot)[0].items[0].kind == model::restored_kind(
            a[0],
            snapshot,
        ));
        assert(seq![a[0].line_number] =~= Seq::<usize>::empty().push(a[0].line_number));
    }
    if b.len() == 0 {
        assert(a + b =~= a);
    } else {
        law_changes_of_a_list(a, b.drop_last(), title, snapshot);
        assert((a + b).drop_last() =~= a + b.drop_last());
        assert((a + b).last() == b.last());
        assert(model::list_changes(a + b, snapshot) =~= model::list_changes(a, snapshot)
            + model::list_changes(b, snapshot));
    }
}

} // verus!
