//! Queries and updates on a checklist document.

use std::collections::HashMap;

use vstd::prelude::*;

use crate::model::{BodySpan, Item, ItemKind, List, StateSnapshot, SubHeading, TaskState};
use crate::text::{same_text, smart_case_contains};
use crate::{model, text};

verus! {

// ----- Cards -----------------------------------------------------------

/// Whether a card is a task that is not done.
pub fn is_open(kind: ItemKind) -> (r: bool)
    ensures
        r == model::open_task(kind),
{
    match kind {
        ItemKind::Checkbox(TaskState::NotStarted) => true,
        ItemKind::Checkbox(TaskState::Started) => true,
        _ => false,
    }
}

/// `base` followed by each of `parts`, a space before each.
fn append_parts(base: String, parts: &Vec<String>) -> (r: String)
    ensures
        r@ == model::with_parts(base@, parts@),
{
    let ghost start = base@;
    let mut text = base;
    let mut i: usize = 0;
    while i < parts.len()
        invariant
            i <= parts@.len(),
            text@ == model::with_parts(start, parts@.take(i as int)),
        decreases parts.len() - i,
    {
        text.append(" ");
        text.append(parts[i].as_str());
        proof {
            assert(parts@.take(i + 1).drop_last() =~= parts@.take(i as int));
        }
        i += 1;
    }
    assert(parts@.take(i as int) =~= parts@);
    text
}

/// `base` followed by the text of each heading, a space before each.
fn append_headings(base: String, headings: &Vec<SubHeading>) -> (r: String)
    ensures
        r@ == model::with_headings(base@, headings@),
{
    let ghost start = base@;
    let mut text = base;
    let mut i: usize = 0;
    while i < headings.len()
        invariant
            i <= headings@.len(),
            text@ == model::with_headings(start, headings@.take(i as int)),
        decreases headings.len() - i,
    {
        text.append(" ");
        text.append(headings[i].text.as_str());
        proof {
            assert(headings@.take(i + 1).drop_last() =~= headings@.take(i as int));
        }
        i += 1;
    }
    assert(headings@.take(i as int) =~= headings@);
    text
}

impl Item {
    /// The text a search looks at: the title, the card's text, its commands.
    pub fn search_text(&self) -> (r: String)
        ensures
            r@ == model::search_text(*self),
    {
        let head = match &self.header {
            Some(h) => h.clone().concat(" ").concat(self.display_text.as_str()),
            None => self.display_text.clone(),
        };
        append_parts(append_parts(head, &self.code_spans), &self.code_blocks)
    }

    /// The targets of the links in the card's body, in order.
    pub fn link_urls(&self) -> (r: Vec<String>)
        ensures
            r@ == model::link_urls(self.body@),
    {
        let mut urls: Vec<String> = Vec::new();
        let mut i: usize = 0;
        while i < self.body.len()
            invariant
                i <= self.body@.len(),
                urls@ == model::link_urls(self.body@.take(i as int)),
            decreases self.body.len() - i,
        {
            proof {
                assert(self.body@.take(i + 1).drop_last() =~= self.body@.take(i as int));
            }
            match &self.body[i] {
                BodySpan::Link { url, .. } => {
                    urls.push(url.clone());
                },
                _ => {},
            }
            i += 1;
        }
        assert(self.body@.take(i as int) =~= self.body@);
        urls
    }

    /// What names the card in a message: its title, or else its text.
    pub fn name(&self) -> (r: String)
        ensures
            r@ == model::item_name(*self),
    {
        match &self.header {
            Some(h) => h.clone(),
            None => self.display_text.clone(),
        }
    }
}

/// The text the go-to-task filter looks at: the search text and the
/// sub-headings above the card.
pub fn picker_match_text(item: &Item) -> (r: String)
    ensures
        r@ == model::picker_text(*item),
{
    append_headings(item.search_text(), &item.section)
}

/// Lemma: headings are added behind a space.
proof fn lemma_headings_follow(base: Seq<char>, headings: Seq<SubHeading>) -> (added: Seq<char>)
    requires
        headings.len() > 0,
    ensures
        model::with_headings(base, headings) == base + " "@ + added,
    decreases headings.len(),
{
    let last = headings.last().text@;
    if headings.len() == 1 {
        assert(model::with_headings(base, headings.drop_last()) == base);
        last
    } else {
        let before = lemma_headings_follow(base, headings.drop_last());
        let added = before + " "@ + last;
        assert(base + " "@ + before + " "@ + last =~= base + " "@ + added);
        added
    }
}

// ----- Lists -----------------------------------------------------------

/// The first task of the list that is not done.
pub fn first_undone_index(list: &List) -> (r: Option<usize>)
    ensures
        text::as_index(r) == model::first_open(list@.items),
{
    let ghost p = model::open_item();
    let mut i: usize = 0;
    while i < list.items.len()
        invariant
            p == model::open_item(),
            i <= list.items@.len(),
            forall|j: int| 0 <= j < i ==> !p(#[trigger] list.items@[j]),
        decreases list.items.len() - i,
    {
        if is_open(list.items[i].kind) {
            proof {
                text::lemma_first_from_is(list.items@, p, 0, i as int);
            }
            return Some(i);
        }
        i += 1;
    }
    proof {
        text::lemma_first_from_none(list.items@, p, 0);
    }
    None
}

/// Whether no task of the list is short of done.
pub fn list_all_done(list: &List) -> (r: bool)
    ensures
        r == model::all_done(list@.items),
{
    let mut i: usize = 0;
    while i < list.items.len()
        invariant
            i <= list.items@.len(),
            forall|j: int|
                0 <= j < i ==> !model::open_task((#[trigger] list.items@[j]).kind),
        decreases list.items.len() - i,
    {
        if is_open(list.items[i].kind) {
            assert(model::open_task(list@.items[i as int].kind));
            return false;
        }
        i += 1;
    }
    true
}

/// Whether two cards stand under the same sub-headings.
fn sections_equal(a: &Vec<SubHeading>, b: &Vec<SubHeading>) -> (r: bool)
    ensures
        r == model::same_section(a@, b@),
{
    if a.len() != b.len() {
        return false;
    }
    let mut i: usize = 0;
    while i < a.len()
        invariant
            i <= a@.len(),
            a@.len() == b@.len(),
            forall|j: int|
                0 <= j < i ==> (#[trigger] a@[j]).level == b@[j].level && a@[j].text@
                    == b@[j].text@,
        decreases a.len() - i,
    {
        if a[i].level != b[i].level || !same_text(a[i].text.as_str(), b[i].text.as_str()) {
            assert(!(a@[i as int].level == b@[i as int].level && a@[i as int].text@
                == b@[i as int].text@));
            return false;
        }
        i += 1;
    }
    true
}

impl List {
    /// The indices of the cards that begin a sub-section, in order.
    pub fn sub_section_starts(&self) -> (r: Vec<usize>)
        ensures
            r@ == model::section_starts(self@.items),
    {
        let mut starts: Vec<usize> = Vec::new();
        let mut i: usize = 0;
        while i < self.items.len()
            invariant
                i <= self.items@.len(),
                starts@ == model::section_starts(self.items@.take(i as int)),
            decreases self.items.len() - i,
        {
            let ghost upto = self.items@.take(i + 1);
            proof {
                assert(upto.drop_last() =~= self.items@.take(i as int));
                assert(upto[i as int] == self.items@[i as int]);
                if i > 0 {
                    assert(upto[i - 1] == self.items@[i - 1]);
                }
            }
            if self.items[i].section.len() > 0 && (i == 0 || !sections_equal(
                &self.items[i].section,
                &self.items[i - 1].section,
            )) {
                assert(model::starts_section(upto, i as int));
                starts.push(i);
            } else {
                assert(!model::starts_section(upto, i as int));
            }
            i += 1;
        }
        assert(self.items@.take(i as int) =~= self.items@);
        starts
    }
}

// ----- Documents -------------------------------------------------------

/// Which cards a walk over the document keeps.
pub enum CardFilter<'a> {
    /// Every card.
    Any,
    /// Tasks that are not done.
    Open,
    /// Cards that a search finds.
    Search(&'a str),
    /// Cards that the go-to-task filter keeps.
    Picker(&'a str),
    /// Cards that come from the given line.
    Line(usize),
}

/// The predicate "comes from line `line`".
pub open spec fn on_line(line: usize) -> spec_fn(Item) -> bool {
    |it: Item| it.line_number == line
}

impl<'a> CardFilter<'a> {
    /// The predicate that the filter stands for.
    pub open spec fn predicate(&self) -> spec_fn(Item) -> bool {
        match self {
            CardFilter::Any => model::any_item(),
            CardFilter::Open => model::open_item(),
            CardFilter::Search(query) => model::found_by_search(query@),
            CardFilter::Picker(query) => model::found_by_picker(query@),
            CardFilter::Line(line) => on_line(*line),
        }
    }

    /// The filter, if it is that of the go-to-task overlay, keeps `item` if a
    /// search for the same text finds it.
    pub open spec fn keeps_found(&self, item: Item) -> bool {
        match self {
            CardFilter::Picker(query) => (model::found_by_search(query@))(item)
                ==> (self.predicate())(item),
            _ => true,
        }
    }

    /// Whether the filter keeps `item`.
    pub fn keeps(&self, item: &Item) -> (r: bool)
        ensures
            r == (self.predicate())(*item),
            self.keeps_found(*item),
    {
        match self {
            CardFilter::Any => true,
            CardFilter::Open => is_open(item.kind),
            CardFilter::Search(query) => {
                let text = item.search_text();
                smart_case_contains(text.as_str(), query)
            },
            CardFilter::Picker(query) => {
                let text = picker_match_text(item);
                proof {
                    if item.section@.len() > 0 {
                        let added = lemma_headings_follow(model::search_text(*item), item.section@);
                        assert(text@ == model::search_text(*item) + " "@ + added);
                    }
                }
                smart_case_contains(text.as_str(), query)
            },
            CardFilter::Line(line) => item.line_number == *line,
        }
    }
}

/// Lemma: the models of the first lists are the first of the models.
proof fn lemma_take_models(lists: Seq<List>, i: int)
    requires
        0 <= i < lists.len(),
    ensures
        model::list_models(lists).take(i + 1).drop_last() == model::list_models(
            lists,
        ).take(i),
        model::list_models(lists).take(i + 1).last() == lists[i]@,
{
    assert(model::list_models(lists).take(i + 1).drop_last() =~= model::list_models(
        lists,
    ).take(i));
}

/// The places of the cards that `filter` keeps, in document order.
pub fn places_of(lists: &Vec<List>, filter: &CardFilter) -> (r: Vec<(usize, usize)>)
    ensures
        r@ == model::places(model::list_models(lists@), filter.predicate()),
        forall|l: int, i: int|
            0 <= l < lists@.len() && 0 <= i < lists@[l].items@.len() ==> filter.keeps_found(
                #[trigger] lists@[l].items@[i],
            ),
{
    let ghost models = model::list_models(lists@);
    let ghost keep = filter.predicate();
    let mut found: Vec<(usize, usize)> = Vec::new();
    let mut li: usize = 0;
    while li < lists.len()
        invariant
            models == model::list_models(lists@),
            keep == filter.predicate(),
            li <= lists@.len(),
            found@ == model::places(models.take(li as int), keep),
            forall|l: int, i: int|
                0 <= l < li && 0 <= i < lists@[l].items@.len() ==> filter.keeps_found(
                    #[trigger] lists@[l].items@[i],
                ),
        decreases lists.len() - li,
    {
        let ghost before = found@;
        let ghost items = lists@[li as int].items@;
        let mut ii: usize = 0;
        while ii < lists[li].items.len()
            invariant
                keep == filter.predicate(),
                li < lists@.len(),
                items == lists@[li as int].items@,
                ii <= items.len(),
                found@ == before + model::list_places(li, items.take(ii as int), keep),
                forall|i: int| 0 <= i < ii ==> filter.keeps_found(#[trigger] items[i]),
            decreases items.len() - ii,
        {
            proof {
                assert(items.take(ii + 1).drop_last() =~= items.take(ii as int));
            }
            if filter.keeps(&lists[li].items[ii]) {
                found.push((li, ii));
            }
            ii += 1;
        }
        proof {
            assert(items.take(ii as int) =~= items);
            lemma_take_models(lists@, li as int);
        }
        li += 1;
    }
    assert(models.take(li as int) =~= models);
    found
}

/// Whether every list has all its tasks done.
pub fn all_lists_done(lists: &Vec<List>) -> (r: bool)
    ensures
        r == model::lists_all_done(model::list_models(lists@)),
{
    let ghost models = model::list_models(lists@);
    let mut i: usize = 0;
    while i < lists.len()
        invariant
            models == model::list_models(lists@),
            i <= lists@.len(),
            forall|j: int| 0 <= j < i ==> model::all_done((#[trigger] models[j]).items),
        decreases lists.len() - i,
    {
        if !list_all_done(&lists[i]) {
            assert(!model::all_done(models[i as int].items));
            return false;
        }
        i += 1;
    }
    true
}

/// Whether some card is a task.
pub fn document_has_tasks(lists: &Vec<List>) -> (r: bool)
    ensures
        r == model::has_tasks(model::list_models(lists@)),
{
    let ghost models = model::list_models(lists@);
    let mut i: usize = 0;
    while i < lists.len()
        invariant
            models == model::list_models(lists@),
            i <= lists@.len(),
            forall|a: int, b: int|
                0 <= a < i && 0 <= b < models[a].items.len()
                    ==> !((#[trigger] models[a].items[b]).kind is Checkbox),
        decreases lists.len() - i,
    {
        let mut j: usize = 0;
        while j < lists[i].items.len()
            invariant
                models == model::list_models(lists@),
                i < lists@.len(),
                j <= lists@[i as int].items@.len(),
                forall|b: int| 0 <= b < j ==> !((#[trigger] models[i as int].items[b]).kind is Checkbox),
            decreases lists@[i as int].items@.len() - j,
        {
            match lists[i].items[j].kind {
                ItemKind::Checkbox(_) => {
                    assert(models[i as int].items[j as int].kind is Checkbox);
                    return true;
                },
                ItemKind::DisplayOnly => {},
            }
            j += 1;
        }
        i += 1;
    }
    false
}

/// Whether some task is started or done.
pub fn document_has_progress(lists: &Vec<List>) -> (r: bool)
    ensures
        r == model::any_progress(model::list_models(lists@)),
{
    let ghost models = model::list_models(lists@);
    let mut i: usize = 0;
    while i < lists.len()
        invariant
            models == model::list_models(lists@),
            i <= lists@.len(),
            forall|a: int, b: int|
                0 <= a < i && 0 <= b < models[a].items.len() ==> !model::progressed(
                    (#[trigger] models[a].items[b]).kind,
                ),
        decreases lists.len() - i,
    {
        let mut j: usize = 0;
        while j < lists[i].items.len()
            invariant
                models == model::list_models(lists@),
                i < lists@.len(),
                j <= lists@[i as int].items@.len(),
                forall|b: int|
                    0 <= b < j ==> !model::progressed(
                        (#[trigger] models[i as int].items[b]).kind,
                    ),
            decreases lists@[i as int].items@.len() - j,
        {
            match lists[i].items[j].kind {
                ItemKind::Checkbox(TaskState::Started) | ItemKind::Checkbox(TaskState::Done) => {
                    assert(model::progressed(models[i as int].items[j as int].kind));
                    return true;
                },
                _ => {},
            }
            j += 1;
        }
        i += 1;
    }
    false
}

/// The first list, from `from` on, with a task that is not done.
pub fn incomplete_list_from(lists: &Vec<List>, from: usize) -> (r: Option<usize>)
    ensures
        text::as_index(r) == text::first_from(
            model::list_models(lists@),
            model::list_has_open(),
            from as int,
        ),
{
    let ghost models = model::list_models(lists@);
    let ghost p = model::list_has_open();
    let mut i: usize = from;
    while i < lists.len()
        invariant
            models == model::list_models(lists@),
            p == model::list_has_open(),
            from <= i,
            forall|j: int| from <= j < i ==> !p(#[trigger] models[j]),
        decreases lists.len() - i,
    {
        if first_undone_index(&lists[i]).is_some() {
            proof {
                text::lemma_first_from_is(models, p, from as int, i as int);
            }
            return Some(i);
        }
        i += 1;
    }
    proof {
        text::lemma_first_from_none(models, p, from as int);
    }
    None
}

/// The last list before `end` with a task that is not done.
pub fn incomplete_list_before(lists: &Vec<List>, end: usize) -> (r: Option<usize>)
    requires
        end <= lists@.len(),
    ensures
        text::as_index(r) == text::last_before(
            model::list_models(lists@),
            model::list_has_open(),
            end as int,
        ),
{
    let ghost models = model::list_models(lists@);
    let ghost p = model::list_has_open();
    let mut i: usize = end;
    while i > 0
        invariant
            models == model::list_models(lists@),
            p == model::list_has_open(),
            i <= end <= lists@.len(),
            forall|j: int| i <= j < end ==> !p(#[trigger] models[j]),
        decreases i,
    {
        i -= 1;
        if first_undone_index(&lists[i]).is_some() {
            proof {
                text::lemma_last_before_is(models, p, end as int, i as int);
            }
            return Some(i);
        }
    }
    proof {
        text::lemma_last_before_none(models, p, end as int);
    }
    None
}

// ----- Updates ---------------------------------------------------------

/// Sets the kind of one card.
pub fn set_item_kind(lists: &mut Vec<List>, list: usize, item: usize, kind: ItemKind)
    requires
        list < old(lists)@.len(),
        item < old(lists)@[list as int].items@.len(),
    ensures
        model::list_models(final(lists)@) == model::set_kind(
            model::list_models(old(lists)@),
            list as int,
            item as int,
            kind,
        ),
{
    lists[list].items[item].kind = kind;
}

/// The state of every task, as pairs of line number and state.
pub fn snapshot_of(lists: &Vec<List>) -> (r: StateSnapshot)
    ensures
        r@ == model::task_states(model::list_models(lists@)),
{
    let ghost models = model::list_models(lists@);
    let mut states: StateSnapshot = Vec::new();
    let mut li: usize = 0;
    while li < lists.len()
        invariant
            models == model::list_models(lists@),
            li <= lists@.len(),
            states@ == model::task_states(models.take(li as int)),
        decreases lists.len() - li,
    {
        let ghost before = states@;
        let ghost items = lists@[li as int].items@;
        let mut ii: usize = 0;
        while ii < lists[li].items.len()
            invariant
                li < lists@.len(),
                items == lists@[li as int].items@,
                ii <= items.len(),
                states@ == before + model::list_states(items.take(ii as int)),
            decreases items.len() - ii,
        {
            proof {
                assert(items.take(ii + 1).drop_last() =~= items.take(ii as int));
            }
            match lists[li].items[ii].kind {
                ItemKind::Checkbox(state) => {
                    states.push((lists[li].items[ii].line_number, state));
                },
                ItemKind::DisplayOnly => {},
            }
            ii += 1;
        }
        proof {
            assert(items.take(ii as int) =~= items);
            lemma_take_models(lists@, li as int);
        }
        li += 1;
    }
    assert(models.take(li as int) =~= models);
    states
}

/// The last state that a snapshot gives for each line.
fn index_snapshot(snapshot: &StateSnapshot) -> (m: HashMap<usize, TaskState>)
    ensures
        forall|line: usize|
            #![trigger m@.dom().contains(line)]
            #![trigger model::wanted_state(snapshot@, line)]
            model::wanted_state(snapshot@, line) == (if m@.dom().contains(line) {
                Some(m@[line])
            } else {
                None::<TaskState>
            }),
{
    broadcast use vstd::std_specs::hash::group_hash_axioms;

    let mut m: HashMap<usize, TaskState> = HashMap::new();
    let mut i: usize = 0;
    while i < snapshot.len()
        invariant
            i <= snapshot@.len(),
            forall|line: usize|
                #![trigger m@.dom().contains(line)]
                #![trigger model::wanted_state(snapshot@.take(i as int), line)]
                model::wanted_state(snapshot@.take(i as int), line) == (
                if m@.dom().contains(line) {
                    Some(m@[line])
                } else {
                    None::<TaskState>
                }),
        decreases snapshot.len() - i,
    {
        broadcast use vstd::std_specs::hash::group_hash_axioms;

        proof {
            assert(snapshot@.take(i + 1).drop_last() =~= snapshot@.take(i as int));
            assert(snapshot@.take(i + 1).last() == snapshot@[i as int]);
        }
        m.insert(snapshot[i].0, snapshot[i].1);
        i += 1;
    }
    assert(snapshot@.take(i as int) =~= snapshot@);
    m
}

/// Gives every task the state that the snapshot has for its line; a line
/// without a task is passed over. Returns the line numbers of the tasks whose
/// state changed, in document order.
pub fn apply_snapshot_to(lists: &mut Vec<List>, snapshot: &StateSnapshot) -> (changed: Vec<usize>)
    ensures
        model::list_models(final(lists)@) == model::restored(
            model::list_models(old(lists)@),
            snapshot@,
        ),
        changed@ == model::changes(model::list_models(old(lists)@), snapshot@),
{
    broadcast use vstd::std_specs::hash::group_hash_axioms;

    let wanted = index_snapshot(snapshot);
    let ghost before = lists@;
    let ghost models = model::list_models(before);
    let mut changed: Vec<usize> = Vec::new();
    let mut li: usize = 0;
    while li < lists.len()
        invariant
            forall|line: usize|
                #![trigger wanted@.dom().contains(line)]
                #![trigger model::wanted_state(snapshot@, line)]
                model::wanted_state(snapshot@, line) == (if wanted@.dom().contains(line) {
                    Some(wanted@[line])
                } else {
                    None::<TaskState>
                }),
            models == model::list_models(before),
            lists@.len() == before.len(),
            li <= before.len(),
            forall|k: int| li <= k < before.len() ==> #[trigger] lists@[k] == before[k],
            forall|k: int|
                0 <= k < li ==> (#[trigger] lists@[k])@ == model::restored_list(
                    models[k],
                    snapshot@,
                ),
            changed@ == model::changes(models.take(li as int), snapshot@),
        decreases before.len() - li,
    {
        let ghost changed_before = changed@;
        let ghost items = before[li as int].items@;
        let ghost lists_before = lists@;
        let mut ii: usize = 0;
        while ii < lists[li].items.len()
            invariant
                forall|line: usize|
                    #![trigger wanted@.dom().contains(line)]
                    #![trigger model::wanted_state(snapshot@, line)]
                    model::wanted_state(snapshot@, line) == (if wanted@.dom().contains(
                        line,
                    ) {
                        Some(wanted@[line])
                    } else {
                        None::<TaskState>
                    }),
                li < lists@.len(),
                lists@.len() == lists_before.len(),
                items == lists_before[li as int].items@,
                forall|k: int|
                    0 <= k < lists@.len() && k != li ==> #[trigger] lists@[k] == lists_before[k],
                lists@[li as int].title == lists_before[li as int].title,
                lists@[li as int].banner == lists_before[li as int].banner,
                lists@[li as int].items@.len() == items.len(),
                ii <= items.len(),
                forall|k: int|
                    ii <= k < items.len() ==> #[trigger] lists@[li as int].items@[k] == items[k],
                forall|k: int|
                    0 <= k < ii ==> #[trigger] lists@[li as int].items@[k] == (Item {
                        kind: model::restored_kind(items[k], snapshot@),
                        ..items[k]
                    }),
                changed@ == changed_before + model::list_changes(
                    items.take(ii as int),
                    snapshot@,
                ),
            decreases items.len() - ii,
        {
            broadcast use vstd::std_specs::hash::group_hash_axioms;

            proof {
                assert(items.take(ii + 1).drop_last() =~= items.take(ii as int));
                assert(items.take(ii + 1).last() == items[ii as int]);
            }
            let line: usize = lists[li].items[ii].line_number;
            match lists[li].items[ii].kind {
                ItemKind::Checkbox(state) => {
                    match wanted.get(&line) {
                        Some(want) => {
                            if state != *want {
                                lists[li].items[ii].kind = ItemKind::Checkbox(*want);
                                changed.push(line);
                            }
                        },
                        None => {},
                    }
                },
                ItemKind::DisplayOnly => {},
            }
            ii += 1;
        }
        proof {
            assert(items.take(ii as int) =~= items);
            assert(lists@[li as int]@ =~= model::restored_list(models[li as int], snapshot@));
            lemma_take_models(before, li as int);
        }
        li += 1;
    }
    assert(models.take(li as int) =~= models);
    assert(model::list_models(lists@) =~= model::restored(models, snapshot@));
    changed
}

/// Sets every task back to not started.
pub fn clear_tasks(lists: &mut Vec<List>)
    ensures
        model::list_models(final(lists)@) == model::cleared(
            model::list_models(old(lists)@),
        ),
{
    let ghost before = lists@;
    let ghost models = model::list_models(before);
    let mut li: usize = 0;
    while li < lists.len()
        invariant
            models == model::list_models(before),
            lists@.len() == before.len(),
            li <= before.len(),
            forall|k: int| li <= k < before.len() ==> #[trigger] lists@[k] == before[k],
            forall|k: int|
                0 <= k < li ==> (#[trigger] lists@[k])@ == model::cleared_list(models[k]),
        decreases before.len() - li,
    {
        let ghost items = before[li as int].items@;
        let ghost lists_before = lists@;
        let mut ii: usize = 0;
        while ii < lists[li].items.len()
            invariant
                li < lists@.len(),
                lists@.len() == lists_before.len(),
                items == lists_before[li as int].items@,
                forall|k: int|
                    0 <= k < lists@.len() && k != li ==> #[trigger] lists@[k] == lists_before[k],
                lists@[li as int].title == lists_before[li as int].title,
                lists@[li as int].banner == lists_before[li as int].banner,
                lists@[li as int].items@.len() == items.len(),
                ii <= items.len(),
                forall|k: int|
                    ii <= k < items.len() ==> #[trigger] lists@[li as int].items@[k] == items[k],
                forall|k: int|
                    0 <= k < ii ==> #[trigger] lists@[li as int].items@[k]
                        == model::cleared_item(items[k]),
            decreases items.len() - ii,
        {
            match lists[li].items[ii].kind {
                ItemKind::Checkbox(_) => {
                    lists[li].items[ii].kind = ItemKind::Checkbox(TaskState::NotStarted);
                },
                ItemKind::DisplayOnly => {},
            }
            ii += 1;
        }
        assert(lists@[li as int]@ =~= model::cleared_list(models[li as int]));
        li += 1;
    }
    assert(model::list_models(lists@) =~= model::cleared(models));
}

} // verus!
