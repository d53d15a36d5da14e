//! Laws of document order: which places a walk over the document visits, and
//! in what order.

use vstd::prelude::*;

use crate::model;
use crate::model::{Item, List, ListModel};

verus! {

/// The lists and their cards can be counted in machine numbers, as those of
/// every document in memory can.
pub open spec fn countable(lists: Seq<ListModel>) -> bool {
    &&& lists.len() <= usize::MAX
    &&& forall|i: int| 0 <= i < lists.len() ==> (#[trigger] lists[i]).items.len() <= usize::MAX
}

/// The place is a card that satisfies `keep`.
pub open spec fn kept_place(
    lists: Seq<ListModel>,
    keep: spec_fn(Item) -> bool,
    place: (usize, usize),
) -> bool {
    &&& place.0 < lists.len()
    &&& place.1 < lists[place.0 as int].items.len()
    &&& keep(lists[place.0 as int].items[place.1 as int])
}

/// Lemma: a document in memory is countable.
pub proof fn lemma_countable(lists: &Vec<List>)
    ensures
        countable(model::list_models(lists@)),
{
    assert(lists.len() <= usize::MAX);
    assert forall|i: int| 0 <= i < lists@.len() implies (#[trigger] model::list_models(
        lists@,
    )[i]).items.len() <= usize::MAX by {
        assert(lists@[i].items.len() <= usize::MAX);
    }
}

/// Lemma: what the places of one list are.
proof fn lemma_list_places(list: usize, items: Seq<Item>, keep: spec_fn(Item) -> bool)
    requires
        items.len() <= usize::MAX,
    ensures
        forall|k: int|
            0 <= k < model::list_places(list, items, keep).len() ==> {
                let p = #[trigger] model::list_places(list, items, keep)[k];
                p.0 == list && p.1 < items.len() && keep(items[p.1 as int])
            },
        forall|a: int, b: int|
            0 <= a < b < model::list_places(list, items, keep).len() ==> (
            #[trigger] model::list_places(list, items, keep)[a]).1 < (
            #[trigger] model::list_places(list, items, keep)[b]).1,
        forall|i: int|
            0 <= i < items.len() && keep(#[trigger] items[i]) ==> model::list_places(
                list,
                items,
                keep,
            ).contains((list, i as usize)),
    decreases items.len(),
{
    if items.len() > 0 {
        let front = items.drop_last();
        lemma_list_places(list, front, keep);
        let rest = model::list_places(list, front, keep);
        let all = model::list_places(list, items, keep);
        assert forall|i: int| 0 <= i < items.len() && keep(#[trigger] items[i]) implies all.contains(
            (list, i as usize),
        ) by {
            if i < front.len() {
                assert(front[i] == items[i]);
                assert(rest.contains((list, i as usize)));
                let k = rest.index_of((list, i as usize));
                assert(all[k] == (list, i as usize));
            } else {
                assert(all[rest.len() as int] == (list, i as usize));
            }
        }
        assert forall|k: int| 0 <= k < all.len() implies {
            let p = #[trigger] all[k];
            p.0 == list && p.1 < items.len() && keep(items[p.1 as int])
        } by {
            if k < rest.len() {
                assert(rest[k] == all[k]);
                assert(front[rest[k].1 as int] == items[rest[k].1 as int]);
            }
        }
        assert forall|a: int, b: int| 0 <= a < b < all.len() implies (#[trigger] all[a]).1 < (
        #[trigger] all[b]).1 by {
            assert(rest[a] == all[a]);
            if b < rest.len() {
                assert(rest[b] == all[b]);
            }
        }
    }
}

/// The places visited are exactly those of the cards that satisfy `keep`.
pub proof fn law_places_are_exact(lists: Seq<ListModel>, keep: spec_fn(Item) -> bool)
    requires
        countable(lists),
    ensures
        forall|k: int|
            0 <= k < model::places(lists, keep).len() ==> kept_place(
                lists,
                keep,
                #[trigger] model::places(lists, keep)[k],
            ),
        forall|place: (usize, usize)| #[trigger]
            kept_place(lists, keep, place) ==> model::places(lists, keep).contains(place),
    decreases lists.len(),
{
    if lists.len() > 0 {
        let front = lists.drop_last();
        let n = (lists.len() - 1) as usize;
        law_places_are_exact(front, keep);
        lemma_list_places(n, lists.last().items, keep);
        let before = model::places(front, keep);
        let own = model::list_places(n, lists.last().items, keep);
        let all = model::places(lists, keep);
        assert(all == before + own);
        assert forall|k: int| 0 <= k < all.len() implies kept_place(
            lists,
            keep,
            #[trigger] all[k],
        ) by {
            if k < before.len() {
                assert(all[k] == before[k]);
                assert(kept_place(front, keep, before[k]));
                assert(front[before[k].0 as int] == lists[before[k].0 as int]);
            } else {
                assert(all[k] == own[k - before.len()]);
            }
        }
        assert forall|place: (usize, usize)| #[trigger]
            kept_place(lists, keep, place) implies all.contains(place) by {
            if place.0 < n {
                assert(front[place.0 as int] == lists[place.0 as int]);
                assert(kept_place(front, keep, place));
                let k = before.index_of(place);
                assert(all[k] == place);
            } else {
                assert(lists.last().items[place.1 as int] == lists[place.0 as int].items[place.1 as int]);
                assert(own.contains((n, place.1)));
                let k = own.index_of((n, place.1));
                assert(all[before.len() + k] == place);
            }
        }
    }
}

/// The places are visited in document order, each once.
pub proof fn law_places_are_in_order(lists: Seq<ListModel>, keep: spec_fn(Item) -> bool)
    requires
        countable(lists),
    ensures
        forall|a: int, b: int|
            0 <= a < b < model::places(lists, keep).len() ==> model::place_before(
                #[trigger] model::places(lists, keep)[a],
                #[trigger] model::places(lists, keep)[b],
            ),
    decreases lists.len(),
{
    if lists.len() > 0 {
        let front = lists.drop_last();
        let n = (lists.len() - 1) as usize;
        law_places_are_in_order(front, keep);
        law_places_are_exact(front, keep);
        lemma_list_places(n, lists.last().items, keep);
        let before = model::places(front, keep);
        let own = model::list_places(n, lists.last().items, keep);
        let all = model::places(lists, keep);
        assert(all == before + own);
        assert forall|a: int, b: int| 0 <= a < b < all.len() implies model::place_before(
            #[trigger] all[a],
            #[trigger] all[b],
        ) by {
            if a < before.len() {
                assert(all[a] == before[a]);
                assert(kept_place(front, keep, before[a]));
            } else {
                assert(all[a] == own[a - before.len()]);
            }
            if b < before.len() {
                assert(all[b] == before[b]);
            } else {
                assert(all[b] == own[b - before.len()]);
            }
        }
    }
}

/// The indices at which sub-sections begin are exactly the first cards of a
/// sub-section, in order.
pub proof fn law_section_starts_are_exact(items: Seq<Item>)
    requires
        items.len() <= usize::MAX,
    ensures
        forall|k: int|
            0 <= k < model::section_starts(items).len() ==> {
                let i = #[trigger] model::section_starts(items)[k];
                i < items.len() && model::starts_section(items, i as int)
            },
        forall|a: int, b: int|
            0 <= a < b < model::section_starts(items).len() ==> (#[trigger] model::section_starts(
                items,
            )[a]) < (#[trigger] model::section_starts(items)[b]),
        forall|i: int|
            0 <= i < items.len() && #[trigger] model::starts_section(items, i)
                ==> model::section_starts(items).contains(i as usize),
    decreases items.len(),
{
    if items.len() > 0 {
        let front = items.drop_last();
        law_section_starts_are_exact(front);
        let rest = model::section_starts(front);
        let all = model::section_starts(items);
        assert forall|i: int| 0 <= i < front.len() implies model::starts_section(front, i)
            == #[trigger] model::starts_section(items, i) by {
            assert(front[i] == items[i]);
            if i > 0 {
                assert(front[i - 1] == items[i - 1]);
            }
        }
        assert forall|k: int| 0 <= k < all.len() implies {
            let i = #[trigger] all[k];
            i < items.len() && model::starts_section(items, i as int)
        } by {
            if k < rest.len() {
                assert(rest[k] == all[k]);
                assert(model::starts_section(front, rest[k] as int) == model::starts_section(
                    items,
                    rest[k] as int,
                ));
            }
        }
        assert forall|a: int, b: int| 0 <= a < b < all.len() implies (#[trigger] all[a]) < (
        #[trigger] all[b]) by {
            assert(rest[a] == all[a]);
            if b < rest.len() {
                assert(rest[b] == all[b]);
            }
        }
        assert forall|i: int| 0 <= i < items.len() && #[trigger] model::starts_section(
            items,
            i,
        ) implies all.contains(i as usize) by {
            if i < front.len() {
                assert(model::starts_section(front, i));
                let k = rest.index_of(i as usize);
                assert(all[k] == i as usize);
            } else {
                assert(all[rest.len() as int] == i as usize);
            }
        }
    }
}

} // verus!
