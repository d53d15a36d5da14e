//! Laws of moving about: where each key leads, by the places themselves.

use vstd::prelude::*;

use crate::app_state::{AppModel, Screen};
use crate::model::{Item, ItemKind, TaskState};
use crate::{app_spec, card_laws, model, order, text};

verus! {

/// The checklist is shown, and the cursor is on a card, or at the beginning of
/// a list without cards.
pub open spec fn at_rest(m: AppModel) -> bool {
    &&& m.screen == Screen::Checklist
    &&& order::countable(m.document.lists)
    &&& m.current_list_index < m.document.lists.len()
    &&& m.current_item_index < m.current_items().len() || (m.current_item_index == 0
        && m.current_items().len() == 0)
}

/// The card is a task, and not done.
pub open spec fn is_open(card: Item) -> bool {
    card.kind matches ItemKind::Checkbox(state) && state != TaskState::Done
}

/// Where a list is entered: at its first task that is not done, or, with none,
/// at its beginning.
pub open spec fn is_entry(items: Seq<Item>, i: int) -> bool {
    ||| 0 <= i < items.len() && is_open(items[i]) && forall|j: int|
        0 <= j < i ==> !is_open(#[trigger] items[j])
    ||| i == 0 && forall|j: int| 0 <= j < items.len() ==> !is_open(#[trigger] items[j])
}

/// Lemma: going to a list leads to where it is entered.
pub proof fn lemma_at_list(m: AppModel, index: usize)
    requires
        order::countable(m.document.lists),
        index < m.document.lists.len(),
    ensures
        ({
            let after = m.at_list(index);
            &&& after.current_list_index == index
            &&& is_entry(m.document.lists[index as int].items, after.current_item_index as int)
            &&& after.screen == Screen::Checklist
            &&& after.document == m.document
            &&& after.status_message == m.status_message
            &&& after.card_scroll == 0
        }),
{
    let items = m.document.lists[index as int].items;
    card_laws::law_first_open_task(items);
    assert(items.len() <= usize::MAX);
    if let Some(i) = model::first_open(items) {
        assert(is_open(items[i]));
        assert forall|j: int| 0 <= j < i implies !is_open(#[trigger] items[j]) by {}
    } else {
        assert forall|j: int| 0 <= j < items.len() implies !is_open(#[trigger] items[j]) by {}
    }
}

/// Law: going forward leads to the next card of the list; from the last one
/// into the next list, where that is entered; and from the last card of the
/// document nowhere.
pub proof fn law_forward(m: AppModel)
    requires
        at_rest(m),
    ensures
        ({
            let after = m.forward();
            let list = m.current_list_index;
            let item = m.current_item_index;
            &&& after.document == m.document
            &&& after.screen == Screen::Checklist
            &&& after.pending_write == m.pending_write
            &&& item + 1 < m.current_items().len() ==> after.cursor() == (list, (item
                + 1) as usize)
            &&& item + 1 >= m.current_items().len() && list + 1 < m.document.lists.len() ==> {
                &&& after.current_list_index == list + 1
                &&& is_entry(
                    m.document.lists[list + 1].items,
                    after.current_item_index as int,
                )
            }
            &&& item + 1 >= m.current_items().len() && list + 1 >= m.document.lists.len()
                ==> after.cursor() == m.cursor()
        }),
{
    if m.current_item_index + 1 >= m.current_items().len() && m.current_list_index + 1
        < m.document.lists.len() {
        lemma_at_list(m, (m.current_list_index + 1) as usize);
    }
}

/// Law: going backward leads to the card before in the list; from the first one
/// into the list before, where that is entered; and from the first card of the
/// document nowhere.
pub proof fn law_backward(m: AppModel)
    requires
        at_rest(m),
    ensures
        ({
            let after = m.backward();
            let list = m.current_list_index;
            let item = m.current_item_index;
            &&& after.document == m.document
            &&& after.screen == Screen::Checklist
            &&& after.pending_write == m.pending_write
            &&& item > 0 ==> after.cursor() == (list, (item - 1) as usize)
            &&& item == 0 && list > 0 ==> {
                &&& after.current_list_index == list - 1
                &&& is_entry(
                    m.document.lists[list - 1].items,
                    after.current_item_index as int,
                )
            }
            &&& item == 0 && list == 0 ==> after.cursor() == m.cursor()
        }),
{
    if m.current_item_index == 0 && m.current_list_index > 0 {
        lemma_at_list(m, (m.current_list_index - 1) as usize);
    }
}

/// Law: forward and backward undo each other within a list.
pub proof fn law_back_and_forth(m: AppModel)
    requires
        at_rest(m),
        m.current_item_index + 1 < m.current_items().len(),
    ensures
        m.forward().backward().cursor() == m.cursor(),
{
    law_forward(m);
    law_backward(m.forward());
}

/// Law: the first `g` waits for a second one, which leads to the first card of
/// the document.
pub proof fn law_gg_leads_to_the_first_card(m: AppModel)
    requires
        at_rest(m),
    ensures
        m.g_pressed(false).pending_g,
        m.g_pressed(false).cursor() == m.cursor(),
        m.g_pressed(false).document == m.document,
        m.g_pressed(true).cursor() == (0usize, 0usize),
        m.g_pressed(true).document == m.document,
        m.g_pressed(true).screen == Screen::Checklist,
{
}

/// Law: `G` leads to the last card of the last list.
pub proof fn law_last_card(m: AppModel)
    requires
        at_rest(m),
    ensures
        ({
            let after = m.at_last();
            let last = m.document.lists.last().items;
            &&& after.current_list_index == m.document.lists.len() - 1
            &&& last.len() > 0 ==> after.current_item_index == last.len() - 1
            &&& last.len() == 0 ==> after.current_item_index == 0
            &&& after.document == m.document
            &&& after.screen == Screen::Checklist
        }),
{
    let last = m.document.lists.len() - 1;
    assert(m.document.lists[last].items.len() <= usize::MAX);
}

/// Law: a list is gone to by its number, where it is entered; where there is no
/// such list the cursor stays, and a message that stays says so, counting from
/// one.
pub proof fn law_lists_are_gone_to(m: AppModel, n: usize)
    requires
        at_rest(m),
        n < usize::MAX,
    ensures
        ({
            let after = m.at_list(n);
            &&& after.document == m.document
            &&& n < m.document.lists.len() ==> {
                &&& after.current_list_index == n
                &&& is_entry(m.document.lists[n as int].items, after.current_item_index as int)
                &&& after.screen == Screen::Checklist
            }
            &&& n >= m.document.lists.len() ==> {
                &&& after.cursor() == m.cursor()
                &&& after.status_is_error
                &&& after.status_expiry is None
                &&& after.status_message == Some(
                    "No list "@ + text::decimal((n + 1) as nat) + ": this document has "@
                        + text::decimal(m.document.lists.len()) + (if m.document.lists.len()
                        == 1 {
                        " list"@ + ""@
                    } else {
                        " list"@ + "s"@
                    }),
                )
            }
        }),
{
    if n < m.document.lists.len() {
        lemma_at_list(m, n);
    } else {
        let front = "No list "@ + text::decimal((n + 1) as nat) + ": this document has "@
            + text::decimal(m.document.lists.len());
        assert(front + " list"@ + ""@ =~= front + (" list"@ + ""@));
        assert(front + " list"@ + "s"@ =~= front + (" list"@ + "s"@));
    }
}

/// The list has a task that is not done.
pub open spec fn is_unfinished(items: Seq<Item>) -> bool {
    exists|j: int| 0 <= j < items.len() && is_open(#[trigger] items[j])
}

/// Lemma: which lists count as unfinished.
pub proof fn lemma_unfinished(m: AppModel, l: int)
    requires
        0 <= l < m.document.lists.len(),
    ensures
        (model::list_has_open())(m.document.lists[l]) == is_unfinished(m.document.lists[l].items),
{
    let items = m.document.lists[l].items;
    card_laws::law_first_open_task(items);
    assert forall|j: int| 0 <= j < items.len() implies is_open(#[trigger] items[j]) == (
    items[j].kind matches ItemKind::Checkbox(state) && state != TaskState::Done) by {}
    if let Some(i) = model::first_open(items) {
        assert(is_open(items[i]));
    }
}

/// Law: `L` leads to the nearest list after the current one that has a task not
/// done, to that task; with none, the cursor stays, and a message says so.
pub proof fn law_next_unfinished_list(m: AppModel)
    requires
        at_rest(m),
    ensures
        ({
            let after = m.at_next_incomplete_list();
            let lists = m.document.lists;
            let here = m.current_list_index;
            &&& after.document == m.document
            &&& (exists|l: int| here < l < lists.len() && is_unfinished((#[trigger] lists[l]).items))
                ==> {
                &&& here < after.current_list_index < lists.len()
                &&& is_unfinished(lists[after.current_list_index as int].items)
                &&& forall|l: int|
                    here < l < after.current_list_index ==> !is_unfinished(
                        (#[trigger] lists[l]).items,
                    )
                &&& is_entry(
                    lists[after.current_list_index as int].items,
                    after.current_item_index as int,
                )
                &&& after.screen == Screen::Checklist
            }
            &&& !(exists|l: int|
                here < l < lists.len() && is_unfinished((#[trigger] lists[l]).items))
                ==> after.cursor() == m.cursor() && after.status_is_error
        }),
{
    let lists = m.document.lists;
    let p = model::list_has_open();
    let from = m.current_list_index + 1;
    text::lemma_first_from(lists, p, from);
    assert forall|l: int| 0 <= l < lists.len() implies p(#[trigger] lists[l]) == is_unfinished(
        lists[l].items,
    ) by {
        lemma_unfinished(m, l);
    }
    if let Some(i) = m.next_incomplete() {
        lemma_at_list(m, i as usize);
        assert(is_unfinished(lists[i].items));
    }
}

/// Law: `H` leads to the nearest list before the current one that has a task
/// not done, to that task; with none, the cursor stays, and a message says so.
pub proof fn law_previous_unfinished_list(m: AppModel)
    requires
        at_rest(m),
    ensures
        ({
            let after = m.at_prev_incomplete_list();
            let lists = m.document.lists;
            let here = m.current_list_index;
            &&& after.document == m.document
            &&& (exists|l: int| 0 <= l < here && is_unfinished((#[trigger] lists[l]).items)) ==> {
                &&& after.current_list_index < here
                &&& is_unfinished(lists[after.current_list_index as int].items)
                &&& forall|l: int|
                    after.current_list_index < l < here ==> !is_unfinished(
                        (#[trigger] lists[l]).items,
                    )
                &&& is_entry(
                    lists[after.current_list_index as int].items,
                    after.current_item_index as int,
                )
                &&& after.screen == Screen::Checklist
            }
            &&& !(exists|l: int| 0 <= l < here && is_unfinished((#[trigger] lists[l]).items))
                ==> after.cursor() == m.cursor() && after.status_is_error
        }),
{
    let lists = m.document.lists;
    let p = model::list_has_open();
    text::lemma_last_before(lists, p, m.current_list_index as int);
    assert forall|l: int| 0 <= l < lists.len() implies p(#[trigger] lists[l]) == is_unfinished(
        lists[l].items,
    ) by {
        lemma_unfinished(m, l);
    }
    if let Some(i) = m.prev_incomplete() {
        lemma_at_list(m, i as usize);
        assert(is_unfinished(lists[i].items));
    }
}

/// Card `i` begins a sub-section of its list: it is under a heading, and is the
/// first card or under other headings than the card before it.
pub open spec fn begins_section(items: Seq<Item>, i: int) -> bool {
    &&& 0 <= i < items.len()
    &&& items[i].section@.len() > 0
    &&& i == 0 || items[i].section@.len() != items[i - 1].section@.len() || exists|k: int|
        0 <= k < items[i].section@.len() && ((#[trigger] items[i].section@[k]).level
            != items[i - 1].section@[k].level || items[i].section@[k].text@ != items[i
            - 1].section@[k].text@)
}

/// Lemma: the sub-sections of a list begin where they do.
proof fn lemma_begins(items: Seq<Item>, i: int)
    requires
        items.len() <= usize::MAX,
        0 <= i < items.len(),
    ensures
        model::section_starts(items).contains(i as usize) == begins_section(items, i),
{
    card_laws::law_sections_begin_at_new_headings(items, i);
}

/// Law: `}` leads to the nearest card after the cursor, in its list, that begins
/// a sub-section, and names that section's innermost heading; with none, the
/// cursor stays, and a message says so.
pub proof fn law_next_section(m: AppModel)
    requires
        at_rest(m),
    ensures
        ({
            let after = m.at_sub_section(true);
            let items = m.current_items();
            let here = m.current_item_index;
            &&& after.document == m.document
            &&& after.current_list_index == m.current_list_index
            &&& (exists|i: int| here < i < items.len() && #[trigger] begins_section(items, i)) ==> {
                &&& here < after.current_item_index < items.len()
                &&& begins_section(items, after.current_item_index as int)
                &&& forall|i: int|
                    here < i < after.current_item_index ==> !#[trigger] begins_section(items, i)
                &&& after.status_message == Some(
                    "Sub-section: "@ + items[after.current_item_index as int].section@.last().text@,
                )
            }
            &&& !(exists|i: int| here < i < items.len() && #[trigger] begins_section(items, i))
                ==> after.cursor() == m.cursor() && after.status_is_error
        }),
{
    let items = m.current_items();
    let starts = model::section_starts(items);
    let here = m.current_item_index;
    let p = app_spec::above(here);
    assert(m.document.lists[m.current_list_index as int].items.len() <= usize::MAX);
    order::law_section_starts_are_exact(items);
    text::lemma_first_from(starts, p, 0);
    assert forall|i: int| here < i < items.len() && #[trigger] begins_section(items, i) implies (
    exists|k: int| 0 <= k < starts.len() && starts[k] == i) by {
        lemma_begins(items, i);
        let k = starts.index_of(i as usize);
        assert(starts[k] == i);
    }
    let found = text::first_from(starts, p, 0);
    if let Some(k) = found {
        let item = starts[k];
        assert(p(starts[k]));
        assert(starts.contains(item));
        lemma_begins(items, item as int);
        assert forall|i: int| here < i < item implies !#[trigger] begins_section(items, i) by {
            if begins_section(items, i) {
                lemma_begins(items, i);
                let j = starts.index_of(i as usize);
                assert(starts[j] == i);
                if j < k {
                    assert(!p(starts[j]));
                } else if k < j {
                    assert(starts[k] < starts[j]);
                }
            }
        }
    } else {
        assert forall|i: int| here < i < items.len() implies !#[trigger] begins_section(
            items,
            i,
        ) by {
            if begins_section(items, i) {
                lemma_begins(items, i);
                let j = starts.index_of(i as usize);
                assert(starts[j] == i);
                assert(!p(starts[j]));
            }
        }
    }
}

/// Law: `{` leads to the nearest card before the cursor, in its list, that
/// begins a sub-section; with none, the cursor stays, and a message says so.
pub proof fn law_previous_section(m: AppModel)
    requires
        at_rest(m),
    ensures
        ({
            let after = m.at_sub_section(false);
            let items = m.current_items();
            let here = m.current_item_index;
            &&& after.document == m.document
            &&& after.current_list_index == m.current_list_index
            &&& (exists|i: int| 0 <= i < here && #[trigger] begins_section(items, i)) ==> {
                &&& after.current_item_index < here
                &&& begins_section(items, after.current_item_index as int)
                &&& forall|i: int|
                    after.current_item_index < i < here ==> !#[trigger] begins_section(items, i)
                &&& after.status_message == Some(
                    "Sub-section: "@ + items[after.current_item_index as int].section@.last().text@,
                )
            }
            &&& !(exists|i: int| 0 <= i < here && #[trigger] begins_section(items, i))
                ==> after.cursor() == m.cursor() && after.status_is_error
        }),
{
    let items = m.current_items();
    let starts = model::section_starts(items);
    let here = m.current_item_index;
    let p = app_spec::below(here);
    assert(m.document.lists[m.current_list_index as int].items.len() <= usize::MAX);
    order::law_section_starts_are_exact(items);
    text::lemma_last_before(starts, p, starts.len() as int);
    let found = text::last_before(starts, p, starts.len() as int);
    if let Some(k) = found {
        let item = starts[k];
        assert(p(starts[k]));
        assert(starts.contains(item));
        lemma_begins(items, item as int);
        assert forall|i: int| item < i < here implies !#[trigger] begins_section(items, i) by {
            if begins_section(items, i) {
                lemma_begins(items, i);
                let j = starts.index_of(i as usize);
                assert(starts[j] == i);
                if j < k {
                    assert(starts[j] < starts[k]);
                } else if k < j {
                    assert(!p(starts[j]));
                }
            }
        }
    } else {
        assert forall|i: int| 0 <= i < here implies !#[trigger] begins_section(items, i) by {
            if begins_section(items, i) {
                lemma_begins(items, i);
                let j = starts.index_of(i as usize);
                assert(starts[j] == i);
                assert(!p(starts[j]));
            }
        }
    }
}

} // verus!
