//! Laws of the file: what is written is the file's own lines, each in its
//! place, with nothing changed but the marker characters of tasks.

use vstd::prelude::*;

use crate::model::{DocumentModel, TaskState};
use crate::{model, task_laws, writer};

verus! {

// ----- Markers ---------------------------------------------------------

/// Law: a space stands for a task that is not started, a slash for one that is
/// started, and `x` in either case for one that is done; no other character
/// stands for anything. What is written for a state is read as that state.
pub proof fn law_markers(c: char, state: TaskState)
    ensures
        writer::marker_state(c) == Some(TaskState::NotStarted) <==> c == ' ',
        writer::marker_state(c) == Some(TaskState::Started) <==> c == '/',
        writer::marker_state(c) == Some(TaskState::Done) <==> c == 'x' || c == 'X',
        writer::marker_char(TaskState::NotStarted) == ' ',
        writer::marker_char(TaskState::Started) == '/',
        writer::marker_char(TaskState::Done) == 'x',
        writer::marker_state(writer::marker_char(state)) == Some(state),
{
}

/// The three characters from index `i` on are a checkbox: a bracket, one of the
/// four markers, a bracket.
pub open spec fn box_at(line: Seq<char>, i: int) -> bool {
    &&& 0 <= i
    &&& i + 2 < line.len()
    &&& line[i] == '['
    &&& line[i + 1] == ' ' || line[i + 1] == '/' || line[i + 1] == 'x' || line[i + 1] == 'X'
    &&& line[i + 2] == ']'
}

/// Lemma: of the indices up to `i`, with a checkbox at `i`, there is a first.
proof fn lemma_first_box(line: Seq<char>, i: int) -> (first: int)
    requires
        box_at(line, i),
    ensures
        0 <= first <= i,
        box_at(line, first),
        forall|j: int| 0 <= j < first ==> !#[trigger] box_at(line, j),
    decreases i,
{
    if exists|j: int| 0 <= j < i && #[trigger] box_at(line, j) {
        let j = choose|j: int| 0 <= j < i && #[trigger] box_at(line, j);
        lemma_first_box(line, j)
    } else {
        i
    }
}

/// Law: the checkbox of a line is the first one in it, wherever it stands; a
/// line has none only if no three of its characters are one.
pub proof fn law_checkbox_is_the_first(line: Seq<char>, i: int)
    ensures
        writer::checkbox_index(line) == Some(i) <==> box_at(line, i) && forall|j: int|
            0 <= j < i ==> !#[trigger] box_at(line, j),
        writer::checkbox_index(line) is None <==> forall|j: int| !#[trigger] box_at(line, j),
{
    assert forall|j: int| #[trigger] box_at(line, j) == writer::checkbox_at(line, j) by {}
    if box_at(line, i) && forall|j: int| 0 <= j < i ==> !#[trigger] box_at(line, j) {
        assert forall|j: int| 0 <= j < i implies !writer::checkbox_at(line, j) by {
            assert(!box_at(line, j));
        }
        assert(writer::first_checkbox_at(line, i));
        writer::lemma_checkbox_index_is(line, i);
    }
    if let Some(k) = writer::checkbox_index(line) {
        assert(writer::first_checkbox_at(line, k));
        assert(box_at(line, k));
        assert forall|j: int| 0 <= j < k implies !#[trigger] box_at(line, j) by {
            assert(!writer::checkbox_at(line, j));
        }
    }
    if exists|j: int| #[trigger] box_at(line, j) {
        let j = choose|j: int| #[trigger] box_at(line, j);
        let first = lemma_first_box(line, j);
        assert forall|k: int| 0 <= k < first implies !writer::checkbox_at(line, k) by {
            assert(!box_at(line, k));
        }
        assert(writer::first_checkbox_at(line, first));
        writer::lemma_checkbox_index_is(line, first);
    }
}

/// Law: setting a line's checkbox to a state replaces the one character between
/// the brackets by that of the state, unless it stands for the state already;
/// every other character stays.
pub proof fn law_one_character_is_replaced(line: Seq<char>, state: TaskState, i: int)
    requires
        box_at(line, i),
        forall|j: int| 0 <= j < i ==> !#[trigger] box_at(line, j),
    ensures
        ({
            let out = writer::marked_line(line, state);
            let old = line[i + 1];
            &&& out.len() == line.len()
            &&& forall|k: int|
                0 <= k < line.len() && k != i + 1 ==> #[trigger] out[k] == line[k]
            &&& state == TaskState::NotStarted ==> out[i + 1] == ' '
            &&& state == TaskState::Started ==> out[i + 1] == '/'
            &&& state == TaskState::Done && old != 'X' ==> out[i + 1] == 'x'
            &&& state == TaskState::Done && old == 'X' ==> out[i + 1] == 'X'
        }),
{
    law_checkbox_is_the_first(line, i);
}

/// Law: a line without a checkbox is left as it is, whatever state is asked
/// for.
pub proof fn law_lines_without_checkbox_stay(line: Seq<char>, state: TaskState)
    requires
        forall|j: int| !#[trigger] box_at(line, j),
    ensures
        writer::marked_line(line, state) == line,
{
    law_checkbox_is_the_first(line, 0);
}

// ----- Lines in a row --------------------------------------------------

/// Law: joined lines are the lines in a row, all of them and in order, with one
/// line ending after each but the last.
pub proof fn law_joined_lines_are_in_a_row(lines: Seq<Seq<char>>, end: Seq<char>)
    requires
        lines.len() > 0,
    ensures
        writer::joined(lines, end) == Seq::new(
            (lines.len() - 1) as nat,
            |i: int| lines[i] + end,
        ).flatten() + lines.last(),
        writer::joined(lines, end) + end == Seq::new(
            lines.len(),
            |i: int| lines[i] + end,
        ).flatten(),
    decreases lines.len(),
{
    let ended = Seq::new((lines.len() - 1) as nat, |i: int| lines[i] + end);
    let all = Seq::new(lines.len(), |i: int| lines[i] + end);
    if lines.len() == 1 {
        assert(ended.flatten() + lines.last() =~= lines[0]);
    } else {
        let front = lines.drop_last();
        law_joined_lines_are_in_a_row(front, end);
        assert(Seq::new(front.len(), |i: int| front[i] + end) =~= ended);
    }
    assert(all =~= ended.push(lines.last() + end));
    ended.lemma_flatten_push(lines.last() + end);
    assert(ended.flatten() + lines.last() + end =~= ended.flatten() + (lines.last() + end));
}

/// A line ending: a line feed, a carriage return before it where `crlf` says
/// so.
pub open spec fn ending(crlf: bool) -> Seq<char> {
    if crlf {
        seq!['\r', '\n']
    } else {
        seq!['\n']
    }
}

/// Lemma: the line ending that is written.
proof fn lemma_ending(crlf: bool)
    ensures
        writer::line_end(crlf) == ending(crlf),
        ending(crlf).last() == '\n',
        ending(crlf).len() > 0,
{
    reveal_strlit("\r\n");
    reveal_strlit("\n");
    assert(writer::line_end(crlf) =~= ending(crlf));
}

/// The line has no line feed.
pub open spec fn is_one_line(line: Seq<char>) -> bool {
    forall|i: int| 0 <= i < line.len() ==> #[trigger] line[i] != '\n'
}

/// Lemma: the last lines of two equal texts are equal, and so is what stands
/// before them.
proof fn lemma_last_lines(
    x: Seq<char>,
    a: Seq<char>,
    y: Seq<char>,
    b: Seq<char>,
    end: Seq<char>,
)
    requires
        end.len() > 0,
        end.last() == '\n',
        is_one_line(a),
        is_one_line(b),
        x + end + a == y + end + b,
    ensures
        a == b,
        x == y,
{
    let s = x + end + a;
    let t = y + end + b;
    let i = x.len() + end.len() - 1;
    let j = y.len() + end.len() - 1;
    assert((x + end).len() == i + 1 && (y + end).len() == j + 1);
    assert(s[i] == end.last());
    assert(t[j] == end.last());
    assert(s.len() == i + 1 + a.len() && t.len() == j + 1 + b.len());
    if i < j {
        assert(j < s.len());
        assert(s[j] == ((x + end) + a)[j]);
        assert(((x + end) + a)[j] == a[j - (x + end).len()]);
    } else if j < i {
        assert(i < t.len());
        assert(t[i] == ((y + end) + b)[i]);
        assert(((y + end) + b)[i] == b[i - (y + end).len()]);
    }
    assert(i == j);
    assert(a =~= s.skip(i + 1));
    assert(b =~= t.skip(j + 1));
    assert(x =~= s.take(x.len() as int));
    assert(y =~= t.take(y.len() as int));
}

/// Lemma: a text with one line has no line feed; one with several has.
proof fn lemma_feed(lines: Seq<Seq<char>>, end: Seq<char>)
    requires
        lines.len() > 1,
        end.len() > 0,
        end.last() == '\n',
    ensures
        !is_one_line(writer::joined(lines, end)),
{
    let x = writer::joined(lines.drop_last(), end);
    let s = writer::joined(lines, end);
    assert(s == x + end + lines.last());
    assert(s[x.len() + end.len() - 1] == '\n');
}

/// Law: what is written can be split into its lines again: two sequences of
/// lines that are written as the same text are the same, line by line.
pub proof fn law_lines_are_read_back(a: Seq<Seq<char>>, b: Seq<Seq<char>>, crlf: bool)
    requires
        a.len() > 0,
        b.len() > 0,
        forall|i: int| 0 <= i < a.len() ==> is_one_line(#[trigger] a[i]),
        forall|i: int| 0 <= i < b.len() ==> is_one_line(#[trigger] b[i]),
        writer::joined(a, writer::line_end(crlf)) == writer::joined(b, writer::line_end(crlf)),
    ensures
        a == b,
    decreases a.len(),
{
    let end = writer::line_end(crlf);
    lemma_ending(crlf);
    if a.len() == 1 || b.len() == 1 {
        if b.len() > 1 {
            lemma_feed(b, end);
            assert(is_one_line(a[0]));
        }
        if a.len() > 1 {
            lemma_feed(a, end);
            assert(is_one_line(b[0]));
        }
        assert(a =~= b);
    } else {
        let x = a.drop_last();
        let y = b.drop_last();
        assert(is_one_line(a[a.len() - 1]));
        assert(is_one_line(b[b.len() - 1]));
        lemma_last_lines(writer::joined(x, end), a.last(), writer::joined(y, end), b.last(), end);
        assert forall|i: int| 0 <= i < x.len() implies is_one_line(#[trigger] x[i]) by {
            assert(x[i] == a[i]);
        }
        assert forall|i: int| 0 <= i < y.len() implies is_one_line(#[trigger] y[i]) by {
            assert(y[i] == b[i]);
        }
        law_lines_are_read_back(x, y, crlf);
        assert(a =~= x.push(a.last()));
        assert(b =~= y.push(b.last()));
    }
}

// ----- The file --------------------------------------------------------

/// The lines of a document as they are written.
pub open spec fn written_lines(d: DocumentModel) -> Seq<Seq<char>> {
    writer::marked_lines(writer::line_texts(d.raw_lines), model::task_states(d.lists))
}

/// Law: the file is as many lines as were read, in a row, with the document's
/// line ending after each, or after each but the last where there was none
/// after it.
pub proof fn law_file_is_its_lines(d: DocumentModel)
    requires
        d.raw_lines.len() > 0,
    ensures
        written_lines(d).len() == d.raw_lines.len(),
        d.trailing_newline ==> d.contents() == Seq::new(
            d.raw_lines.len(),
            |i: int| written_lines(d)[i] + ending(d.uses_crlf),
        ).flatten(),
        !d.trailing_newline ==> d.contents() == Seq::new(
            (d.raw_lines.len() - 1) as nat,
            |i: int| written_lines(d)[i] + ending(d.uses_crlf),
        ).flatten() + written_lines(d).last(),
{
    let lines = writer::line_texts(d.raw_lines);
    let out = written_lines(d);
    let end = ending(d.uses_crlf);
    lemma_ending(d.uses_crlf);
    writer::law_only_markers_are_rewritten(lines, model::task_states(d.lists));
    law_joined_lines_are_in_a_row(out, end);
    assert(Seq::new(out.len(), |i: int| out[i] + end) =~= Seq::new(
        d.raw_lines.len(),
        |i: int| written_lines(d)[i] + ending(d.uses_crlf),
    ));
    assert(Seq::new((out.len() - 1) as nat, |i: int| out[i] + end) =~= Seq::new(
        (d.raw_lines.len() - 1) as nat,
        |i: int| written_lines(d)[i] + ending(d.uses_crlf),
    ));
}

/// Law: a line that no task comes from is written as it was read.
pub proof fn law_other_lines_stay(d: DocumentModel, k: int)
    requires
        0 <= k < d.raw_lines.len(),
        forall|l: int, i: int|
            0 <= l < d.lists.len() && 0 <= i < d.lists[l].items.len() && (
            #[trigger] d.lists[l].items[i]).kind is Checkbox ==> d.lists[l].items[i].line_number
                != k + 1,
    ensures
        written_lines(d)[k] == d.raw_lines[k]@,
{
    let lines = writer::line_texts(d.raw_lines);
    let states = model::task_states(d.lists);
    lemma_states_are_of_tasks(d.lists);
    assert forall|n: int| 0 <= n < states.len() implies (#[trigger] states[n]).0 != k + 1 by {
        assert(comes_from(d.lists, states[n].0));
        let l = choose|l: int|
            0 <= l < d.lists.len() && #[trigger] has_task_from(d.lists[l].items, states[n].0);
        let i = choose|i: int|
            0 <= i < d.lists[l].items.len() && (#[trigger] d.lists[l].items[i]).kind is Checkbox
                && d.lists[l].items[i].line_number == states[n].0;
        assert(d.lists[l].items[i].line_number != k + 1);
    }
    writer::law_other_lines_are_untouched(lines, states, k);
    assert(lines[k] == d.raw_lines[k]@);
}

/// A task of the list comes from the line.
pub open spec fn has_task_from(items: Seq<model::Item>, line: usize) -> bool {
    exists|i: int|
        0 <= i < items.len() && (#[trigger] items[i]).kind is Checkbox && items[i].line_number
            == line
}

/// Lemma: every entry of a snapshot of one list is of a task of it.
proof fn lemma_list_states_are_of_tasks(items: Seq<model::Item>)
    ensures
        forall|n: int|
            0 <= n < model::list_states(items).len() ==> has_task_from(
                items,
                (#[trigger] model::list_states(items)[n]).0,
            ),
    decreases items.len(),
{
    if items.len() > 0 {
        let front = items.drop_last();
        lemma_list_states_are_of_tasks(front);
        let rest = model::list_states(front);
        let all = model::list_states(items);
        assert forall|n: int| 0 <= n < all.len() implies has_task_from(
            items,
            (#[trigger] all[n]).0,
        ) by {
            if n < rest.len() {
                assert(all[n] == rest[n]);
                let i = choose|i: int|
                    0 <= i < front.len() && (#[trigger] front[i]).kind is Checkbox
                        && front[i].line_number == rest[n].0;
                assert(has_task_from(front, rest[n].0));
                assert(items[i] == front[i]);
            } else {
                assert(items[items.len() - 1] == items.last());
            }
        }
    }
}

/// A task of some list comes from the line.
pub open spec fn comes_from(lists: Seq<model::ListModel>, line: usize) -> bool {
    exists|l: int| 0 <= l < lists.len() && #[trigger] has_task_from(lists[l].items, line)
}

/// Lemma: every entry of a snapshot is of a task.
proof fn lemma_states_are_of_tasks(lists: Seq<model::ListModel>)
    ensures
        forall|n: int|
            0 <= n < model::task_states(lists).len() ==> comes_from(
                lists,
                (#[trigger] model::task_states(lists)[n]).0,
            ),
    decreases lists.len(),
{
    if lists.len() > 0 {
        let front = lists.drop_last();
        let last = lists.len() - 1;
        let items = lists.last().items;
        lemma_states_are_of_tasks(front);
        lemma_list_states_are_of_tasks(items);
        let rest = model::task_states(front);
        let own = model::list_states(items);
        let all = model::task_states(lists);
        assert forall|n: int| 0 <= n < all.len() implies comes_from(lists, (#[trigger] all[n]).0) by {
            if n < rest.len() {
                assert(all[n] == rest[n]);
                assert(comes_from(front, rest[n].0));
                let l = choose|l: int|
                    0 <= l < front.len() && #[trigger] has_task_from(front[l].items, rest[n].0);
                assert(lists[l] == front[l]);
                assert(has_task_from(lists[l].items, all[n].0));
            } else {
                assert(all[n] == own[n - rest.len()]);
                assert(has_task_from(lists[last].items, all[n].0));
            }
        }
    }
}

/// Lemma: however often a line is marked, what stands in its checkbox is what
/// stood there, or a marker that is written.
proof fn lemma_marked_character(
    lines: Seq<Seq<char>>,
    states: Seq<(usize, TaskState)>,
    k: int,
    i: int,
)
    requires
        0 <= k < lines.len(),
        writer::checkbox_index(lines[k]) == Some(i),
    ensures
        ({
            let c = writer::marked_lines(lines, states)[k][i + 1];
            c == lines[k][i + 1] || c == ' ' || c == '/' || c == 'x'
        }),
    decreases states.len(),
{
    if states.len() > 0 {
        lemma_marked_character(lines, states.drop_last(), k, i);
        writer::law_only_markers_are_rewritten(lines, states.drop_last());
        let rest = writer::marked_lines(lines, states.drop_last());
        assert(writer::same_but_marker(lines[k], rest[k]));
        assert(writer::first_checkbox_at(lines[k], i));
    }
}

/// Law: the line of a task is written as it was read but for one character, the
/// one between the brackets of its first checkbox, and that shows the state of
/// the task: a space, a slash, or an `x`, which stays a capital where it was
/// one.
pub proof fn law_task_is_written_on_its_line(d: DocumentModel, l: int, i: int, at: int)
    requires
        task_laws::distinct_lines(d.lists),
        0 <= l < d.lists.len(),
        0 <= i < d.lists[l].items.len(),
        d.lists[l].items[i].kind is Checkbox,
        1 <= d.lists[l].items[i].line_number <= d.raw_lines.len(),
        box_at(d.raw_lines[d.lists[l].items[i].line_number - 1]@, at),
        forall|j: int|
            0 <= j < at ==> !#[trigger] box_at(
                d.raw_lines[d.lists[l].items[i].line_number - 1]@,
                j,
            ),
    ensures
        ({
            let n = d.lists[l].items[i].line_number - 1;
            let old = d.raw_lines[n]@;
            let out = written_lines(d)[n];
            let state = d.lists[l].items[i].kind->Checkbox_0;
            &&& out.len() == old.len()
            &&& forall|k: int| 0 <= k < old.len() && k != at + 1 ==> #[trigger] out[k] == old[k]
            &&& state == TaskState::NotStarted ==> out[at + 1] == ' '
            &&& state == TaskState::Started ==> out[at + 1] == '/'
            &&& state == TaskState::Done ==> out[at + 1] == 'x' || (out[at + 1] == 'X' && old[at
                + 1] == 'X')
        }),
{
    let line = d.lists[l].items[i].line_number;
    let n = line - 1;
    let lines = writer::line_texts(d.raw_lines);
    let states = model::task_states(d.lists);
    assert(lines[n] == d.raw_lines[n]@);
    law_checkbox_is_the_first(lines[n], at);
    task_laws::lemma_wanted(d.lists, line);
    assert(task_laws::is_task(d.lists, l, i));
    writer::law_written_markers_show_the_state(lines, states, line);
    writer::law_only_markers_are_rewritten(lines, states);
    assert(writer::same_but_marker(lines[n], written_lines(d)[n]));
    lemma_marked_character(lines, states, n, at);
    law_markers(written_lines(d)[n][at + 1], TaskState::Done);
}

/// Law: writing back a document whose checkboxes show its states already gives
/// the text that it was read from: every line as it was, none more and none
/// less.
pub proof fn law_unchanged_file_is_written_as_it_was(d: DocumentModel)
    requires
        d.raw_lines.len() > 0,
        forall|k: int|
            0 <= k < model::task_states(d.lists).len() && 1 <= (#[trigger] model::task_states(
                d.lists,
            )[k]).0 <= d.raw_lines.len() ==> (writer::checkbox_index(
                d.raw_lines[model::task_states(d.lists)[k].0 - 1]@,
            ) matches Some(i) ==> writer::marker_state(
                d.raw_lines[model::task_states(d.lists)[k].0 - 1]@[i + 1],
            ) == Some(model::task_states(d.lists)[k].1)),
    ensures
        d.trailing_newline ==> d.contents() == Seq::new(
            d.raw_lines.len(),
            |i: int| d.raw_lines[i]@ + ending(d.uses_crlf),
        ).flatten(),
        !d.trailing_newline ==> d.contents() == Seq::new(
            (d.raw_lines.len() - 1) as nat,
            |i: int| d.raw_lines[i]@ + ending(d.uses_crlf),
        ).flatten() + d.raw_lines.last()@,
{
    let lines = writer::line_texts(d.raw_lines);
    let states = model::task_states(d.lists);
    assert forall|k: int| 0 <= k < states.len() && 1 <= (#[trigger] states[k]).0
        <= lines.len() implies (writer::checkbox_index(lines[states[k].0 - 1]) matches Some(i)
        ==> writer::marker_state(lines[states[k].0 - 1][i + 1]) == Some(states[k].1)) by {
        assert(lines[states[k].0 - 1] == d.raw_lines[states[k].0 - 1]@);
    }
    writer::law_writing_back_unchanged_is_identity(lines, states);
    law_file_is_its_lines(d);
    assert(written_lines(d) == lines);
    assert(Seq::new(d.raw_lines.len(), |i: int| written_lines(d)[i] + ending(d.uses_crlf))
        =~= Seq::new(d.raw_lines.len(), |i: int| d.raw_lines[i]@ + ending(d.uses_crlf)));
    assert(Seq::new(
        (d.raw_lines.len() - 1) as nat,
        |i: int| written_lines(d)[i] + ending(d.uses_crlf),
    ) =~= Seq::new(
        (d.raw_lines.len() - 1) as nat,
        |i: int| d.raw_lines[i]@ + ending(d.uses_crlf),
    ));
}

} // verus!
