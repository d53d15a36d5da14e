//! The checklist document: its lists, their cards, and the questions the
//! application asks about them.

use vstd::prelude::*;

use crate::text;

verus! {

// ----- Data ------------------------------------------------------------

/// How far a task has come.
#[derive(Clone, Copy, Debug, PartialEq, Eq, Structural)]
pub enum TaskState {
    NotStarted,
    Started,
    Done,
}

/// A task with its state, or a card that only shows something.
#[derive(Clone, Copy, Debug, PartialEq, Eq, Structural)]
pub enum ItemKind {
    Checkbox(TaskState),
    DisplayOnly,
}

/// A heading below a list's own heading, which labels a group of cards.
#[derive(Debug)]
pub struct SubHeading {
    pub level: u8,
    pub text: String,
}

/// A piece of a card's body.
#[derive(Debug)]
pub enum BodySpan {
    Text(String),
    Bold(String),
    Italic(String),
    Strike(String),
    Code(String),
    Link { text: String, url: String },
}

/// One card of a list.
#[derive(Debug)]
pub struct Item {
    /// The line of the file that the card comes from, counted from one.
    pub line_number: usize,
    pub depth: usize,
    /// The sub-headings above the card, outermost first.
    pub section: Vec<SubHeading>,
    pub display_text: String,
    pub body: Vec<BodySpan>,
    /// The card's title, where its line began with bold text.
    pub header: Option<String>,
    pub code_spans: Vec<String>,
    pub code_blocks: Vec<String>,
    pub kind: ItemKind,
}

/// A titled list of cards.
#[derive(Debug)]
pub struct List {
    pub title: String,
    pub banner: Option<String>,
    pub items: Vec<Item>,
}

/// A checklist file: its lists, and the lines they were read from.
#[derive(Debug)]
pub struct Document {
    pub file_path: String,
    pub title: Option<String>,
    pub has_default_list: bool,
    pub lists: Vec<List>,
    pub raw_lines: Vec<String>,
    pub uses_crlf: bool,
    pub trailing_newline: bool,
}

// ----- Models ----------------------------------------------------------

/// A list as a mathematical value.
#[verifier::ext_equal]
pub struct ListModel {
    pub title: String,
    pub banner: Option<String>,
    pub items: Seq<Item>,
}

/// A document as a mathematical value.
#[verifier::ext_equal]
pub struct DocumentModel {
    pub file_path: String,
    pub title: Option<String>,
    pub has_default_list: bool,
    pub lists: Seq<ListModel>,
    pub raw_lines: Seq<String>,
    pub uses_crlf: bool,
    pub trailing_newline: bool,
}

impl View for List {
    type V = ListModel;

    open spec fn view(&self) -> ListModel {
        ListModel { title: self.title, banner: self.banner, items: self.items@ }
    }
}

/// The models of a sequence of lists.
pub open spec fn list_models(lists: Seq<List>) -> Seq<ListModel> {
    Seq::new(lists.len(), |i: int| lists[i]@)
}

impl View for Document {
    type V = DocumentModel;

    open spec fn view(&self) -> DocumentModel {
        DocumentModel {
            file_path: self.file_path,
            title: self.title,
            has_default_list: self.has_default_list,
            lists: list_models(self.lists@),
            raw_lines: self.raw_lines@,
            uses_crlf: self.uses_crlf,
            trailing_newline: self.trailing_newline,
        }
    }
}

// ----- Predicates on cards and lists -----------------------------------

/// A task that is not done: not started, or started.
pub open spec fn open_task(kind: ItemKind) -> bool {
    kind == ItemKind::Checkbox(TaskState::NotStarted) || kind == ItemKind::Checkbox(
        TaskState::Started,
    )
}

/// The predicate "is a task that is not done".
pub open spec fn open_item() -> spec_fn(Item) -> bool {
    |it: Item| open_task(it.kind)
}

/// The predicate "is anything at all".
pub open spec fn any_item() -> spec_fn(Item) -> bool {
    |it: Item| true
}

/// The first task of `items` that is not done.
pub open spec fn first_open(items: Seq<Item>) -> Option<int> {
    text::first_from(items, open_item(), 0)
}

/// The predicate "has a task that is not done".
pub open spec fn list_has_open() -> spec_fn(ListModel) -> bool {
    |l: ListModel| first_open(l.items) is Some
}

/// No task of `items` is short of done.
pub open spec fn all_done(items: Seq<Item>) -> bool {
    forall|i: int| 0 <= i < items.len() ==> !open_task((#[trigger] items[i]).kind)
}

/// Every list has all its tasks done.
pub open spec fn lists_all_done(lists: Seq<ListModel>) -> bool {
    forall|i: int| 0 <= i < lists.len() ==> all_done((#[trigger] lists[i]).items)
}

/// Some card of some list is a task.
pub open spec fn has_tasks(lists: Seq<ListModel>) -> bool {
    exists|i: int, j: int|
        0 <= i < lists.len() && 0 <= j < lists[i].items.len()
            && (#[trigger] lists[i].items[j]).kind is Checkbox
}

/// Some task is started or done.
pub open spec fn any_progress(lists: Seq<ListModel>) -> bool {
    exists|i: int, j: int|
        0 <= i < lists.len() && 0 <= j < lists[i].items.len() && progressed(
            (#[trigger] lists[i].items[j]).kind,
        )
}

/// A task that is started or done.
pub open spec fn progressed(kind: ItemKind) -> bool {
    kind == ItemKind::Checkbox(TaskState::Started) || kind == ItemKind::Checkbox(TaskState::Done)
}

/// The card at the given place, if there is one.
pub open spec fn item_at(lists: Seq<ListModel>, list: usize, item: usize) -> Option<Item> {
    if list < lists.len() && item < lists[list as int].items.len() {
        Some(lists[list as int].items[item as int])
    } else {
        None
    }
}

/// The lists with the kind of one card replaced.
pub open spec fn set_kind(lists: Seq<ListModel>, list: int, item: int, kind: ItemKind) -> Seq<
    ListModel,
> {
    let old_list = lists[list];
    lists.update(
        list,
        ListModel {
            items: old_list.items.update(item, Item { kind, ..old_list.items[item] }),
            ..old_list
        },
    )
}

// ----- Places in document order ----------------------------------------

/// The places of the cards of list number `list` that satisfy `keep`, in
/// order.
pub open spec fn list_places(list: usize, items: Seq<Item>, keep: spec_fn(Item) -> bool) -> Seq<
    (usize, usize),
>
    decreases items.len(),
{
    if items.len() == 0 {
        Seq::empty()
    } else {
        let rest = list_places(list, items.drop_last(), keep);
        if keep(items.last()) {
            rest.push((list, (items.len() - 1) as usize))
        } else {
            rest
        }
    }
}

/// The places of the cards of all lists that satisfy `keep`, in document
/// order.
pub open spec fn places(lists: Seq<ListModel>, keep: spec_fn(Item) -> bool) -> Seq<(usize, usize)>
    decreases lists.len(),
{
    if lists.len() == 0 {
        Seq::empty()
    } else {
        places(lists.drop_last(), keep) + list_places(
            (lists.len() - 1) as usize,
            lists.last().items,
            keep,
        )
    }
}

/// Place `a` comes before place `b` in document order.
pub open spec fn place_before(a: (usize, usize), b: (usize, usize)) -> bool {
    a.0 < b.0 || (a.0 == b.0 && a.1 < b.1)
}

// ----- Text of a card --------------------------------------------------

/// `base` followed by each of `parts`, a space before each.
pub open spec fn with_parts(base: Seq<char>, parts: Seq<String>) -> Seq<char>
    decreases parts.len(),
{
    if parts.len() == 0 {
        base
    } else {
        with_parts(base, parts.drop_last()) + " "@ + parts.last()@
    }
}

/// The text a search looks at: the title, the card's text, and its commands.
pub open spec fn search_text(item: Item) -> Seq<char> {
    let head = match item.header {
        Some(h) => h@ + " "@ + item.display_text@,
        None => item.display_text@,
    };
    with_parts(with_parts(head, item.code_spans@), item.code_blocks@)
}

/// `base` followed by the text of each heading, a space before each.
pub open spec fn with_headings(base: Seq<char>, headings: Seq<SubHeading>) -> Seq<char>
    decreases headings.len(),
{
    if headings.len() == 0 {
        base
    } else {
        with_headings(base, headings.drop_last()) + " "@ + headings.last().text@
    }
}

/// The text the go-to-task filter looks at: the search text and the
/// sub-headings above the card.
pub open spec fn picker_text(item: Item) -> Seq<char> {
    with_headings(search_text(item), item.section@)
}

/// What names a card in a message: its title, or else its text.
pub open spec fn item_name(item: Item) -> Seq<char> {
    match item.header {
        Some(h) => h@,
        None => item.display_text@,
    }
}

/// The predicate "a search for `query` finds this card".
pub open spec fn found_by_search(query: Seq<char>) -> spec_fn(Item) -> bool {
    |it: Item| text::smart_case_match(search_text(it), query)
}

/// The predicate "the go-to-task filter `query` keeps this card".
pub open spec fn found_by_picker(query: Seq<char>) -> spec_fn(Item) -> bool {
    |it: Item| text::smart_case_match(picker_text(it), query)
}

/// The targets of the links in a card's body, in order.
pub open spec fn link_urls(body: Seq<BodySpan>) -> Seq<String>
    decreases body.len(),
{
    if body.len() == 0 {
        Seq::empty()
    } else {
        let rest = link_urls(body.drop_last());
        match body.last() {
            BodySpan::Link { url, .. } => rest.push(url),
            _ => rest,
        }
    }
}

// ----- Sub-sections ----------------------------------------------------

/// Two cards stand under the same sub-headings.
pub open spec fn same_section(a: Seq<SubHeading>, b: Seq<SubHeading>) -> bool {
    &&& a.len() == b.len()
    &&& forall|i: int|
        0 <= i < a.len() ==> (#[trigger] a[i]).level == b[i].level && a[i].text@ == b[i].text@
}

/// Card `i` is the first of a sub-section.
pub open spec fn starts_section(items: Seq<Item>, i: int) -> bool {
    &&& items[i].section@.len() > 0
    &&& i == 0 || !same_section(items[i].section@, items[i - 1].section@)
}

/// The indices of the cards that begin a sub-section, in order.
pub open spec fn section_starts(items: Seq<Item>) -> Seq<usize>
    decreases items.len(),
{
    if items.len() == 0 {
        Seq::empty()
    } else {
        let rest = section_starts(items.drop_last());
        if starts_section(items, items.len() - 1) {
            rest.push((items.len() - 1) as usize)
        } else {
            rest
        }
    }
}

// ----- Checkbox snapshots ----------------------------------------------

/// The state of every task, as pairs of line number and state.
pub type StateSnapshot = Vec<(usize, TaskState)>;

/// The states of the tasks of one list.
pub open spec fn list_states(items: Seq<Item>) -> Seq<(usize, TaskState)>
    decreases items.len(),
{
    if items.len() == 0 {
        Seq::empty()
    } else {
        let rest = list_states(items.drop_last());
        match items.last().kind {
            ItemKind::Checkbox(state) => rest.push((items.last().line_number, state)),
            ItemKind::DisplayOnly => rest,
        }
    }
}

/// The states of all tasks, in document order.
pub open spec fn task_states(lists: Seq<ListModel>) -> Seq<(usize, TaskState)>
    decreases lists.len(),
{
    if lists.len() == 0 {
        Seq::empty()
    } else {
        task_states(lists.drop_last()) + list_states(lists.last().items)
    }
}

/// The state a snapshot asks for on a line; of several entries the last one
/// counts.
pub open spec fn wanted_state(snapshot: Seq<(usize, TaskState)>, line: usize) -> Option<TaskState>
    decreases snapshot.len(),
{
    if snapshot.len() == 0 {
        None
    } else if snapshot.last().0 == line {
        Some(snapshot.last().1)
    } else {
        wanted_state(snapshot.drop_last(), line)
    }
}

/// The kind of a card once a snapshot is applied to it.
pub open spec fn restored_kind(item: Item, snapshot: Seq<(usize, TaskState)>) -> ItemKind {
    match (item.kind, wanted_state(snapshot, item.line_number)) {
        (ItemKind::Checkbox(_), Some(want)) => ItemKind::Checkbox(want),
        _ => item.kind,
    }
}

/// The cards of one list with a snapshot applied.
pub open spec fn restored_items(items: Seq<Item>, snapshot: Seq<(usize, TaskState)>) -> Seq<Item> {
    Seq::new(
        items.len(),
        |i: int| Item { kind: restored_kind(items[i], snapshot), ..items[i] },
    )
}

/// A list with a snapshot applied.
pub open spec fn restored_list(list: ListModel, snapshot: Seq<(usize, TaskState)>) -> ListModel {
    ListModel { items: restored_items(list.items, snapshot), ..list }
}

/// The lists with a snapshot applied.
pub open spec fn restored(lists: Seq<ListModel>, snapshot: Seq<(usize, TaskState)>) -> Seq<
    ListModel,
> {
    Seq::new(lists.len(), |i: int| restored_list(lists[i], snapshot))
}

/// The line numbers of the tasks of one list that a snapshot changes.
pub open spec fn list_changes(items: Seq<Item>, snapshot: Seq<(usize, TaskState)>) -> Seq<usize>
    decreases items.len(),
{
    if items.len() == 0 {
        Seq::empty()
    } else {
        let rest = list_changes(items.drop_last(), snapshot);
        if restored_kind(items.last(), snapshot) != items.last().kind {
            rest.push(items.last().line_number)
        } else {
            rest
        }
    }
}

/// The line numbers of all tasks that a snapshot changes, in document order.
pub open spec fn changes(lists: Seq<ListModel>, snapshot: Seq<(usize, TaskState)>) -> Seq<usize>
    decreases lists.len(),
{
    if lists.len() == 0 {
        Seq::empty()
    } else {
        changes(lists.drop_last(), snapshot) + list_changes(lists.last().items, snapshot)
    }
}

/// A card with its task, if it is one, set back to not started.
pub open spec fn cleared_item(item: Item) -> Item {
    match item.kind {
        ItemKind::Checkbox(_) => Item { kind: ItemKind::Checkbox(TaskState::NotStarted), ..item },
        ItemKind::DisplayOnly => item,
    }
}

/// A list with every task not started.
pub open spec fn cleared_list(list: ListModel) -> ListModel {
    ListModel { items: Seq::new(list.items.len(), |i: int| cleared_item(list.items[i])), ..list }
}

/// The lists with every task not started.
pub open spec fn cleared(lists: Seq<ListModel>) -> Seq<ListModel> {
    Seq::new(lists.len(), |i: int| cleared_list(lists[i]))
}

} // verus!
