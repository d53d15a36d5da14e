//! The application: finding cards by text, by sub-section, and by state.

use vstd::prelude::*;

use crate::app_state::{AppState, CopyReport, Screen};
use crate::document::{is_open, places_of, CardFilter};
use crate::text::{copy_of, decimal_text, join3};
use crate::{app_spec, model, order, text};

verus! {

/// Whether place `a` comes before place `b` in document order.
fn comes_before(a: (usize, usize), b: (usize, usize)) -> (r: bool)
    ensures
        r == model::place_before(a, b),
{
    a.0 < b.0 || (a.0 == b.0 && a.1 < b.1)
}

/// The index of the match that a search forward from `cur` leads to.
fn index_after(matches: &Vec<(usize, usize)>, cur: (usize, usize)) -> (r: usize)
    requires
        matches@.len() > 0,
    ensures
        r == app_spec::match_after(matches@, cur),
        r < matches@.len(),
{
    let ghost p = app_spec::after_place(cur);
    let mut i: usize = 0;
    while i < matches.len()
        invariant
            p == app_spec::after_place(cur),
            i <= matches@.len(),
            forall|j: int| 0 <= j < i ==> !p(#[trigger] matches@[j]),
        decreases matches.len() - i,
    {
        if comes_before(cur, matches[i]) {
            proof {
                text::lemma_first_from_is(matches@, p, 0, i as int);
            }
            return i;
        }
        i += 1;
    }
    proof {
        text::lemma_first_from_none(matches@, p, 0);
    }
    0
}

/// The index of the match that a search backward from `cur` leads to.
fn index_before(matches: &Vec<(usize, usize)>, cur: (usize, usize)) -> (r: usize)
    requires
        matches@.len() > 0,
    ensures
        r == app_spec::match_before(matches@, cur),
        r < matches@.len(),
{
    let ghost p = app_spec::before_place(cur);
    let count: usize = matches.len();
    let mut i: usize = count;
    while i > 0
        invariant
            p == app_spec::before_place(cur),
            count == matches@.len(),
            i <= count,
            forall|j: int| i <= j < count ==> !p(#[trigger] matches@[j]),
        decreases i,
    {
        i -= 1;
        if comes_before(matches[i], cur) {
            proof {
                text::lemma_last_before_is(matches@, p, count as int, i as int);
            }
            return i;
        }
    }
    proof {
        text::lemma_last_before_none(matches@, p, count as int);
    }
    count - 1
}

/// The first of `starts` above `cur`.
fn start_above(starts: &Vec<usize>, cur: usize) -> (r: Option<usize>)
    ensures
        text::as_index(r) == text::first_from(starts@, app_spec::above(cur), 0),
        r matches Some(k) ==> k < starts@.len(),
{
    let ghost p = app_spec::above(cur);
    let mut i: usize = 0;
    while i < starts.len()
        invariant
            p == app_spec::above(cur),
            i <= starts@.len(),
            forall|j: int| 0 <= j < i ==> !p(#[trigger] starts@[j]),
        decreases starts.len() - i,
    {
        if starts[i] > cur {
            proof {
                text::lemma_first_from_is(starts@, p, 0, i as int);
            }
            return Some(i);
        }
        i += 1;
    }
    proof {
        text::lemma_first_from_none(starts@, p, 0);
    }
    None
}

/// The last of `starts` below `cur`.
fn start_below(starts: &Vec<usize>, cur: usize) -> (r: Option<usize>)
    ensures
        text::as_index(r) == text::last_before(
            starts@,
            app_spec::below(cur),
            starts@.len() as int,
        ),
        r matches Some(k) ==> k < starts@.len(),
{
    let ghost p = app_spec::below(cur);
    let count: usize = starts.len();
    let mut i: usize = count;
    while i > 0
        invariant
            p == app_spec::below(cur),
            count == starts@.len(),
            i <= count,
            forall|j: int| i <= j < count ==> !p(#[trigger] starts@[j]),
        decreases i,
    {
        i -= 1;
        if starts[i] < cur {
            proof {
                text::lemma_last_before_is(starts@, p, count as int, i as int);
            }
            return Some(i);
        }
    }
    proof {
        text::lemma_last_before_none(starts@, p, count as int);
    }
    None
}

/// Where `cur` stands in `places`; the beginning if it does not.
fn index_of_place(places: &Vec<(usize, usize)>, cur: (usize, usize)) -> (r: usize)
    ensures
        r == match text::first_from(places@, app_spec::equal_place(cur), 0) {
            Some(i) => i,
            None => 0,
        },
        places@.len() > 0 ==> r < places@.len(),
{
    let ghost p = app_spec::equal_place(cur);
    let mut i: usize = 0;
    while i < places.len()
        invariant
            p == app_spec::equal_place(cur),
            i <= places@.len(),
            forall|j: int| 0 <= j < i ==> !p(#[trigger] places@[j]),
        decreases places.len() - i,
    {
        if places[i].0 == cur.0 && places[i].1 == cur.1 {
            proof {
                text::lemma_first_from_is(places@, p, 0, i as int);
            }
            return i;
        }
        i += 1;
    }
    proof {
        text::lemma_first_from_none(places@, p, 0);
    }
    0
}

/// Lemma: one step on, going round at the end.
proof fn lemma_step_round(start: int, step: int, n: int)
    requires
        0 <= start < n,
        0 <= step,
    ensures
        (start + step + 1) % n == if (start + step) % n + 1 == n {
            0
        } else {
            (start + step) % n + 1
        },
{
    let x = start + step;
    vstd::arithmetic::div_mod::lemma_fundamental_div_mod(x, n);
    let q = x / n;
    let r = x % n;
    if r + 1 == n {
        assert(x + 1 == n * (q + 1)) by (nonlinear_arith)
            requires
                x == n * q + r,
                r + 1 == n,
        ;
        assert(x + 1 == (q + 1) * n + 0) by (nonlinear_arith)
            requires
                x + 1 == n * (q + 1),
        ;
        vstd::arithmetic::div_mod::lemma_fundamental_div_mod_converse(x + 1, n, q + 1, 0);
    } else {
        assert(x + 1 == q * n + (r + 1)) by (nonlinear_arith)
            requires
                x == n * q + r,
        ;
        vstd::arithmetic::div_mod::lemma_fundamental_div_mod_converse(x + 1, n, q, r + 1);
    }
}

impl AppState {
    /// The places that a search for `query` finds, in document order. An empty
    /// query finds nothing.
    pub fn find_matches(&self, query: &str) -> (r: Vec<(usize, usize)>)
        ensures
            r@ == self@.matches(query@),
            query@.len() == 0 ==> r@.len() == 0,
    {
        let found = places_of(&self.document.lists, &CardFilter::Search(query));
        proof {
            if query@.len() == 0 && found@.len() > 0 {
                order::lemma_countable(&self.document.lists);
                order::law_places_are_exact(
                    self@.document.lists,
                    model::found_by_search(query@),
                );
                assert(order::kept_place(
                    self@.document.lists,
                    model::found_by_search(query@),
                    found@[0],
                ));
            }
        }
        found
    }

    // ----- Search ------------------------------------------------------

    /// Begins a search.
    pub(crate) fn start_search(&mut self)
        ensures
            final(self)@ == old(self)@.searching(),
    {
        self.search.origin = (self.current_list_index, self.current_item_index);
        self.search.query = String::new();
        self.screen = Screen::Search;
    }

    /// Moves the cursor to the first match of the query, if there is one.
    pub(crate) fn update_search(&mut self)
        ensures
            final(self)@ == old(self)@.search_followed(),
    {
        let found = self.find_matches(self.search.query.as_str());
        if found.len() > 0 {
            let (list, item) = found[0];
            self.move_to(list, item);
        }
    }

    /// Commits the search and reports what it found.
    #[verifier::rlimit(30)]
    pub(crate) fn commit_search(&mut self)
        requires
            old(self)@.has_list(),
        ensures
            final(self)@ == old(self)@.search_committed(),
    {
        let query = self.search.query.clone();
        let count: usize = self.find_matches(query.as_str()).len();
        self.screen = Screen::Checklist;
        if query.as_str().is_empty() {
            self.search.last = None;
        } else {
            self.search.last = Some(query.clone());
            if count == 0 {
                self.set_error(join3("No matches for \"", query.as_str(), "\""));
            } else if count == 1 {
                self.set_status(copy_of("Match 1/1"));
            } else {
                let number = decimal_text(count as u128);
                self.set_status(join3("Match 1/", number.as_str(), " · n/N to cycle"));
            }
        }
        self.maybe_auto_copy();
    }

    /// Gives the search up and goes back to where it began.
    pub(crate) fn cancel_search(&mut self)
        ensures
            final(self)@ == old(self)@.search_cancelled(),
    {
        let (list, item) = self.search.origin;
        self.show(list, item);
    }

    /// Goes to a card, says so, and copies its code if that is wanted.
    fn focus_and_tell(&mut self, list_index: usize, item_index: usize, msg: String)
        requires
            old(self)@.has_list(),
        ensures
            final(self)@ == old(self)@.focused(list_index, item_index).with_status(
                msg@,
            ).auto_copied(CopyReport::OnSuccess),
    {
        self.focus_item(list_index, item_index);
        self.set_status(msg);
        self.maybe_auto_copy();
    }

    /// Goes to the next or previous match of the last search, going round at
    /// the ends.
    #[verifier::rlimit(30)]
    pub(crate) fn search_cycle(&mut self, forward: bool)
        requires
            old(self)@.has_list(),
        ensures
            final(self)@ == old(self)@.search_cycled(forward),
    {
        let query = match &self.search.last {
            Some(q) => q.clone(),
            None => {
                return;
            },
        };
        let found = self.find_matches(query.as_str());
        if found.len() == 0 {
            self.set_error(join3("No matches for \"", query.as_str(), "\""));
            return;
        }
        let cur = (self.current_list_index, self.current_item_index);
        let target: usize = if forward {
            index_after(&found, cur)
        } else {
            index_before(&found, cur)
        };
        let (list, item) = found[target];
        let position = decimal_text(target as u128 + 1);
        let count = decimal_text(found.len() as u128);
        let msg = join3("Match ", position.as_str(), "/").concat(count.as_str());
        self.focus_and_tell(list, item, msg);
    }

    // ----- Sub-sections ------------------------------------------------

    /// Goes to the first card of the next or previous sub-section of the list,
    /// or says why not.
    pub(crate) fn jump_sub_section(&mut self, forward: bool)
        requires
            old(self)@.has_list(),
        ensures
            final(self)@ == old(self)@.at_sub_section(forward),
    {
        let list_index: usize = self.current_list_index;
        let starts = self.current_list().sub_section_starts();
        if starts.len() == 0 {
            self.set_error(copy_of("No sub-sections in this list"));
            return;
        }
        let cur: usize = self.current_item_index;
        let found: Option<usize> = if forward {
            start_above(&starts, cur)
        } else {
            start_below(&starts, cur)
        };
        match found {
            Some(k) => {
                let item: usize = starts[k];
                proof {
                    let items = self@.current_items();
                    assert(self.document.lists@[list_index as int].items.len() <= usize::MAX);
                    order::law_section_starts_are_exact(items);
                    assert(model::section_starts(items)[k as int] == item);
                }
                let section = &self.document.lists[list_index].items[item].section;
                let name = section[section.len() - 1].text.clone();
                let msg = copy_of("Sub-section: ").concat(name.as_str());
                self.focus_and_tell(list_index, item, msg);
            },
            None => {
                let edge: &str = if forward {
                    "last"
                } else {
                    "first"
                };
                self.set_error(join3("Already at the ", edge, " sub-section"));
            },
        }
    }

    // ----- Unfinished tasks --------------------------------------------

    /// Goes to the next task that is not done, anywhere in the document, going
    /// round at the end; or says that there is none.
    #[verifier::rlimit(30)]
    pub fn jump_to_next_incomplete_task(&mut self)
        ensures
            final(self)@ == old(self)@.at_next_incomplete_task(),
    {
        let order_of_cards = places_of(&self.document.lists, &CardFilter::Any);
        let n: usize = order_of_cards.len();
        let ghost before = self@;
        if n == 0 {
            assert(forall|step: int| !before.first_open_ahead(step));
            self.set_error(copy_of("No unfinished tasks"));
            return;
        }
        proof {
            order::lemma_countable(&self.document.lists);
            order::law_places_are_exact(self@.document.lists, model::any_item());
        }
        let start: usize = index_of_place(
            &order_of_cards,
            (self.current_list_index, self.current_item_index),
        );
        let mut at: usize = start;
        let mut step: usize = 0;
        proof {
            vstd::arithmetic::div_mod::lemma_small_mod(start as nat, n as nat);
        }
        while step < n
            invariant
                before == old(self)@,
                self@ == before,
                order_of_cards@ == model::places(before.document.lists, model::any_item()),
                forall|k: int|
                    0 <= k < order_of_cards@.len() ==> order::kept_place(
                        before.document.lists,
                        model::any_item(),
                        #[trigger] order_of_cards@[k],
                    ),
                n == order_of_cards@.len(),
                0 < n,
                start < n,
                start == (match text::first_from(
                    order_of_cards@,
                    app_spec::equal_place(before.cursor()),
                    0,
                ) {
                    Some(i) => i,
                    None => 0,
                }),
                step <= n,
                at < n,
                at == (start + step) % (n as int),
                forall|s: int|
                    1 <= s <= step ==> !before.open_at(#[trigger] before.place_ahead(s)),
            decreases n - step,
        {
            proof {
                lemma_step_round(start as int, step as int, n as int);
            }
            at = if at + 1 == n {
                0
            } else {
                at + 1
            };
            step += 1;
            let (list, item) = order_of_cards[at];
            assert(before.place_ahead(step as int) == (list, item));
            assert(order::kept_place(
                before.document.lists,
                model::any_item(),
                order_of_cards@[at as int],
            ));
            if is_open(self.document.lists[list].items[item].kind) {
                proof {
                    assert(before.first_open_ahead(step as int));
                    let c = choose|s: int| before.first_open_ahead(s);
                    assert(before.first_open_ahead(c));
                    if c < step {
                        assert(!before.open_at(before.place_ahead(c)));
                    } else if step < c {
                        assert(!before.open_at(before.place_ahead(step as int)));
                    }
                }
                self.show(list, item);
                self.maybe_auto_copy();
                return;
            }
        }
        proof {
            assert forall|s: int| !before.first_open_ahead(s) by {
                if before.first_open_ahead(s) {
                    assert(!before.open_at(before.place_ahead(s)));
                }
            }
        }
        self.set_error(copy_of("No unfinished tasks"));
    }

    // ----- The go-to-task overlay --------------------------------------

    /// Opens the overlay.
    pub(crate) fn open_list_picker(&mut self)
        ensures
            final(self)@ == old(self)@.picking(),
    {
        self.screen_before_confirm = self.screen;
        self.picker.query = String::new();
        self.picker.selection = 0;
        self.screen = Screen::ListPicker;
    }

    /// The places that the overlay lists: all of them, or, with a filter,
    /// those that it keeps. What a search for the text of the filter finds is
    /// among them.
    pub fn picker_matches(&self) -> (r: Vec<(usize, usize)>)
        ensures
            r@ == self@.picker_places(),
            forall|place: (usize, usize)| #[trigger]
                self@.matches(self@.picker_query).contains(place) ==> r@.contains(place),
    {
        let ghost lists = self@.document.lists;
        let ghost query = self@.picker_query;
        proof {
            order::lemma_countable(&self.document.lists);
            order::law_places_are_exact(lists, model::found_by_search(query));
        }
        if self.picker.query.as_str().is_empty() {
            proof {
                assert forall|place: (usize, usize)| #[trigger]
                    self@.matches(query).contains(place) implies false by {
                    assert(order::kept_place(lists, model::found_by_search(query), place));
                }
            }
            places_of(&self.document.lists, &CardFilter::Any)
        } else {
            let filter = CardFilter::Picker(self.picker.query.as_str());
            let found = places_of(&self.document.lists, &filter);
            proof {
                let keep = model::found_by_picker(query);
                order::law_places_are_exact(lists, keep);
                assert forall|place: (usize, usize)| #[trigger]
                    self@.matches(query).contains(place) implies found@.contains(place) by {
                    assert(order::kept_place(lists, model::found_by_search(query), place));
                    assert(filter.keeps_found(
                        self.document.lists@[place.0 as int].items@[place.1 as int],
                    ));
                    assert(order::kept_place(lists, keep, place));
                }
            }
            found
        }
    }

    /// Half of the rows that the overlay shows, one at least.
    pub(crate) fn picker_half_page(&self) -> (r: usize)
        ensures
            r == self@.picker_half(),
    {
        if self.picker.viewport_height < 2 {
            1
        } else {
            (self.picker.viewport_height / 2) as usize
        }
    }

    /// Moves the highlight by `by` rows, down or up, to the ends of the list
    /// at most.
    pub(crate) fn picker_move(&mut self, by: usize, down: bool)
        ensures
            final(self)@ == old(self)@.picker_moved(
                if down {
                    by as int
                } else {
                    -by
                },
            ),
    {
        let count: usize = self.picker_matches().len();
        if count == 0 {
            return;
        }
        let current: usize = if self.picker.selection < count {
            self.picker.selection
        } else {
            count - 1
        };
        self.picker.selection = if down {
            if by < count - current {
                current + by
            } else {
                count - 1
            }
        } else {
            current.saturating_sub(by)
        };
    }

    /// Goes to the highlighted card, or just closes the overlay when there is
    /// none.
    #[verifier::rlimit(30)]
    pub(crate) fn picker_commit(&mut self)
        requires
            old(self)@.has_list(),
        ensures
            final(self)@ == old(self)@.picked(),
    {
        let found = self.picker_matches();
        if self.picker.selection < found.len() {
            let (list, item) = found[self.picker.selection];
            self.focus_item(list, item);
            self.maybe_auto_copy();
        } else {
            self.screen = self.screen_before_confirm;
        }
    }
}

} // verus!
