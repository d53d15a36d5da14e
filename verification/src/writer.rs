//! Writing a checklist back: the file's own lines, with the marker character
//! of each task set to the task's state and nothing else touched.

use vstd::prelude::*;

use crate::document::snapshot_of;
use crate::model::{Document, DocumentModel, StateSnapshot, TaskState};
use crate::text::{chars_of, string_of};
use crate::{model, text};

verus! {

// ----- What is written -------------------------------------------------

/// The state that a marker character stands for.
pub open spec fn marker_state(c: char) -> Option<TaskState> {
    if c == ' ' {
        Some(TaskState::NotStarted)
    } else if c == '/' {
        Some(TaskState::Started)
    } else if c == 'x' || c == 'X' {
        Some(TaskState::Done)
    } else {
        None
    }
}

/// The marker character written for a state.
pub open spec fn marker_char(state: TaskState) -> char {
    match state {
        TaskState::NotStarted => ' ',
        TaskState::Started => '/',
        TaskState::Done => 'x',
    }
}

/// A checkbox `[c]` begins at index `i` of the line.
pub open spec fn checkbox_at(line: Seq<char>, i: int) -> bool {
    &&& 0 <= i
    &&& i + 2 < line.len()
    &&& line[i] == '['
    &&& marker_state(line[i + 1]) is Some
    &&& line[i + 2] == ']'
}

/// The line's first checkbox begins at index `i`.
pub open spec fn first_checkbox_at(line: Seq<char>, i: int) -> bool {
    &&& checkbox_at(line, i)
    &&& forall|j: int| 0 <= j < i ==> !checkbox_at(line, j)
}

/// Where the line's first checkbox begins; `None` if it has none.
pub open spec fn checkbox_index(line: Seq<char>) -> Option<int> {
    if exists|i: int| first_checkbox_at(line, i) {
        Some(choose|i: int| first_checkbox_at(line, i))
    } else {
        None
    }
}

/// The line with its checkbox set to `state`. A marker that stands for the
/// state already is left as it is, and so is a line without a checkbox.
pub open spec fn marked_line(line: Seq<char>, state: TaskState) -> Seq<char> {
    match checkbox_index(line) {
        Some(i) => if marker_state(line[i + 1]) == Some(state) {
            line
        } else {
            line.update(i + 1, marker_char(state))
        },
        None => line,
    }
}

/// The lines with the task on line number `entry.0`, counted from one, set to
/// the state `entry.1`.
pub open spec fn mark_one(lines: Seq<Seq<char>>, entry: (usize, TaskState)) -> Seq<Seq<char>> {
    if 1 <= entry.0 <= lines.len() {
        lines.update(entry.0 - 1, marked_line(lines[entry.0 - 1], entry.1))
    } else {
        lines
    }
}

/// The lines with every task set to its state.
pub open spec fn marked_lines(lines: Seq<Seq<char>>, states: Seq<(usize, TaskState)>) -> Seq<
    Seq<char>,
>
    decreases states.len(),
{
    if states.len() == 0 {
        lines
    } else {
        mark_one(marked_lines(lines, states.drop_last()), states.last())
    }
}

/// The lines with `end` between each two of them.
pub open spec fn joined(lines: Seq<Seq<char>>, end: Seq<char>) -> Seq<char>
    decreases lines.len(),
{
    if lines.len() == 0 {
        Seq::empty()
    } else if lines.len() == 1 {
        lines[0]
    } else {
        joined(lines.drop_last(), end) + end + lines.last()
    }
}

/// The characters of each line.
pub open spec fn line_texts(lines: Seq<String>) -> Seq<Seq<char>> {
    Seq::new(lines.len(), |i: int| lines[i]@)
}

/// The line ending that a document uses.
pub open spec fn line_end(crlf: bool) -> Seq<char> {
    if crlf {
        "\r\n"@
    } else {
        "\n"@
    }
}

impl DocumentModel {
    /// The document as it is written to its file.
    pub open spec fn contents(self) -> Seq<char> {
        let body = joined(
            marked_lines(line_texts(self.raw_lines), model::task_states(self.lists)),
            line_end(self.uses_crlf),
        );
        if self.trailing_newline {
            body + line_end(self.uses_crlf)
        } else {
            body
        }
    }
}

// ----- Writing it ------------------------------------------------------

/// The state that a marker character stands for.
fn state_of_marker(c: char) -> (r: Option<TaskState>)
    ensures
        r == marker_state(c),
{
    if c == ' ' {
        Some(TaskState::NotStarted)
    } else if c == '/' {
        Some(TaskState::Started)
    } else if c == 'x' || c == 'X' {
        Some(TaskState::Done)
    } else {
        None
    }
}

/// The marker character written for a state.
fn marker_of_state(state: TaskState) -> (r: char)
    ensures
        r == marker_char(state),
{
    match state {
        TaskState::NotStarted => ' ',
        TaskState::Started => '/',
        TaskState::Done => 'x',
    }
}

/// A first checkbox that is known is the one `checkbox_index` names.
pub proof fn lemma_checkbox_index_is(line: Seq<char>, i: int)
    requires
        first_checkbox_at(line, i),
    ensures
        checkbox_index(line) == Some(i),
{
    let c = choose|k: int| first_checkbox_at(line, k);
    assert(first_checkbox_at(line, c));
    if c < i {
        assert(!checkbox_at(line, c));
    } else if i < c {
        assert(!checkbox_at(line, i));
    }
}

/// Where the line's first checkbox begins.
fn find_checkbox(line: &Vec<char>) -> (r: Option<usize>)
    ensures
        text::as_index(r) == checkbox_index(line@),
        r matches Some(i) ==> i + 2 < line@.len(),
{
    if line.len() < 3 {
        assert(forall|i: int| !checkbox_at(line@, i));
        return None;
    }
    let total: usize = line.len();
    let last: usize = total - 2;
    let mut i: usize = 0;
    while i < last
        invariant
            total == line@.len(),
            last == total - 2,
            i <= last,
            forall|j: int| 0 <= j < i ==> !checkbox_at(line@, j),
        decreases last - i,
    {
        if line[i] == '[' && line[i + 2] == ']' && state_of_marker(line[i + 1]).is_some() {
            proof {
                assert(first_checkbox_at(line@, i as int));
                lemma_checkbox_index_is(line@, i as int);
            }
            return Some(i);
        }
        i += 1;
    }
    assert(forall|j: int| !checkbox_at(line@, j));
    None
}

/// Sets the line's checkbox to `state`.
fn mark_line(line: &String, state: TaskState) -> (r: String)
    ensures
        r@ == marked_line(line@, state),
{
    let mut chars = chars_of(line.as_str());
    let end: usize = chars.len();
    match find_checkbox(&chars) {
        Some(i) => {
            let differs = match state_of_marker(chars[i + 1]) {
                Some(now) => now != state,
                None => true,
            };
            if differs {
                chars[i + 1] = marker_of_state(state);
            }
        },
        None => {},
    }
    let r = string_of(&chars, 0, end);
    assert(chars@.subrange(0, end as int) =~= chars@);
    r
}

/// A copy of the lines.
fn copy_lines(lines: &Vec<String>) -> (r: Vec<String>)
    ensures
        line_texts(r@) == line_texts(lines@),
{
    let mut out: Vec<String> = Vec::new();
    let mut i: usize = 0;
    while i < lines.len()
        invariant
            i <= lines@.len(),
            out@.len() == i,
            forall|j: int| 0 <= j < i ==> (#[trigger] out@[j])@ == lines@[j]@,
        decreases lines.len() - i,
    {
        out.push(lines[i].clone());
        i += 1;
    }
    assert(line_texts(out@) =~= line_texts(lines@));
    out
}

/// Sets every task to its state.
fn mark_lines(lines: &Vec<String>, states: &StateSnapshot) -> (r: Vec<String>)
    ensures
        line_texts(r@) == marked_lines(line_texts(lines@), states@),
{
    let mut out = copy_lines(lines);
    let ghost start = line_texts(lines@);
    let mut i: usize = 0;
    while i < states.len()
        invariant
            i <= states@.len(),
            start == line_texts(lines@),
            line_texts(out@) == marked_lines(start, states@.take(i as int)),
        decreases states.len() - i,
    {
        let (line, state) = states[i];
        let ghost before = line_texts(out@);
        proof {
            assert(states@.take(i + 1).drop_last() =~= states@.take(i as int));
            assert(states@.take(i + 1).last() == states@[i as int]);
        }
        if 1 <= line && line <= out.len() {
            let marked = mark_line(&out[line - 1], state);
            out[line - 1] = marked;
        }
        assert(line_texts(out@) =~= mark_one(before, (line, state)));
        i += 1;
    }
    assert(states@.take(i as int) =~= states@);
    out
}

/// Puts `end` between each two lines.
fn join_lines(lines: &Vec<String>, end: &str) -> (r: String)
    ensures
        r@ == joined(line_texts(lines@), end@),
{
    let ghost texts = line_texts(lines@);
    let mut out = String::new();
    let mut i: usize = 0;
    while i < lines.len()
        invariant
            texts == line_texts(lines@),
            i <= lines@.len(),
            out@ == joined(texts.take(i as int), end@),
        decreases lines.len() - i,
    {
        proof {
            assert(texts.take(i + 1).drop_last() =~= texts.take(i as int));
            assert(texts.take(i + 1).last() == texts[i as int]);
        }
        if i > 0 {
            out.append(end);
        }
        let ghost before = out@;
        out.append(lines[i].as_str());
        proof {
            if i == 0 {
                assert(out@ =~= lines@[0]@);
                assert(texts.take(1)[0] == lines@[0]@);
            }
        }
        i += 1;
    }
    assert(texts.take(i as int) =~= texts);
    out
}

/// The document as it is written to its file.
pub fn document_contents(document: &Document) -> (r: String)
    ensures
        r@ == document@.contents(),
{
    let states = snapshot_of(&document.lists);
    let lines = mark_lines(&document.raw_lines, &states);
    let end: &str = if document.uses_crlf {
        "\r\n"
    } else {
        "\n"
    };
    let body = join_lines(&lines, end);
    if document.trailing_newline {
        body.concat(end)
    } else {
        body
    }
}

// ----- Laws ------------------------------------------------------------

/// Two lines are the same but for the marker character of the first checkbox.
pub open spec fn same_but_marker(a: Seq<char>, b: Seq<char>) -> bool {
    &&& a.len() == b.len()
    &&& checkbox_index(a) == checkbox_index(b)
    &&& forall|k: int|
        0 <= k < a.len() && a[k] != #[trigger] b[k] ==> checkbox_index(a) == Some(k - 1)
}

/// Setting a line's checkbox changes its marker character and nothing else,
/// and the checkbox then shows the state.
pub proof fn law_marking_a_line(line: Seq<char>, state: TaskState)
    ensures
        same_but_marker(line, marked_line(line, state)),
        checkbox_index(line) matches Some(i) ==> marker_state(marked_line(line, state)[i + 1])
            == Some(state),
{
    let out = marked_line(line, state);
    match checkbox_index(line) {
        Some(i) => {
            assert(first_checkbox_at(line, i));
            assert forall|j: int| 0 <= j < i implies !checkbox_at(out, j) by {
                assert(!checkbox_at(line, j));
                if checkbox_at(out, j) {
                    // The one changed character is neither bracket of an
                    // earlier checkbox, and no marker of one either: the
                    // bracket at `i` closes nothing.
                    assert(j + 1 != i + 1);
                    assert(j + 2 != i + 1 || marker_state(']') is None);
                }
            }
            assert(first_checkbox_at(out, i));
            lemma_checkbox_index_is(out, i);
        },
        None => {},
    }
}

/// Writing a document back keeps the number of its lines, and each line but
/// for the marker character of its checkbox.
pub proof fn law_only_markers_are_rewritten(
    lines: Seq<Seq<char>>,
    states: Seq<(usize, TaskState)>,
)
    ensures
        marked_lines(lines, states).len() == lines.len(),
        forall|k: int|
            0 <= k < lines.len() ==> same_but_marker(
                lines[k],
                #[trigger] marked_lines(lines, states)[k],
            ),
    decreases states.len(),
{
    if states.len() > 0 {
        let rest = marked_lines(lines, states.drop_last());
        law_only_markers_are_rewritten(lines, states.drop_last());
        let (line, state) = states.last();
        assert forall|k: int| 0 <= k < lines.len() implies same_but_marker(
            lines[k],
            #[trigger] marked_lines(lines, states)[k],
        ) by {
            assert(same_but_marker(lines[k], rest[k]));
            if k == line - 1 {
                law_marking_a_line(rest[k], state);
            }
        }
    }
}

/// A line that no task comes from is written back as it was.
pub proof fn law_other_lines_are_untouched(
    lines: Seq<Seq<char>>,
    states: Seq<(usize, TaskState)>,
    k: int,
)
    requires
        0 <= k < lines.len(),
        forall|i: int| 0 <= i < states.len() ==> (#[trigger] states[i]).0 != k + 1,
    ensures
        marked_lines(lines, states)[k] == lines[k],
    decreases states.len(),
{
    if states.len() > 0 {
        law_only_markers_are_rewritten(lines, states.drop_last());
        assert forall|i: int| 0 <= i < states.drop_last().len() implies (
        #[trigger] states.drop_last()[i]).0 != k + 1 by {
            assert(states[i].0 != k + 1);
        }
        law_other_lines_are_untouched(lines, states.drop_last(), k);
        assert(states[states.len() - 1].0 != k + 1);
    }
}

/// The file is the state: the checkbox on a task's line, written back, shows
/// the last state that `states` has for that line.
pub proof fn law_written_markers_show_the_state(
    lines: Seq<Seq<char>>,
    states: Seq<(usize, TaskState)>,
    line: usize,
)
    requires
        1 <= line <= lines.len(),
    ensures
        model::wanted_state(states, line) matches Some(state) ==> (checkbox_index(
            lines[line - 1],
        ) matches Some(i) ==> marker_state(marked_lines(lines, states)[line - 1][i + 1]) == Some(
            state,
        )),
    decreases states.len(),
{
    if states.len() > 0 {
        law_only_markers_are_rewritten(lines, states.drop_last());
        let rest = marked_lines(lines, states.drop_last());
        assert(same_but_marker(lines[line - 1], rest[line - 1]));
        if states.last().0 == line {
            law_marking_a_line(rest[line - 1], states.last().1);
        } else {
            law_written_markers_show_the_state(lines, states.drop_last(), line);
        }
    }
}

/// Writing back a document whose checkboxes show its states already leaves
/// every line as it is.
pub proof fn law_writing_back_unchanged_is_identity(
    lines: Seq<Seq<char>>,
    states: Seq<(usize, TaskState)>,
)
    requires
        forall|k: int|
            0 <= k < states.len() && 1 <= (#[trigger] states[k]).0 <= lines.len() ==> (
            checkbox_index(lines[states[k].0 - 1]) matches Some(i) ==> marker_state(
                lines[states[k].0 - 1][i + 1],
            ) == Some(states[k].1)),
    ensures
        marked_lines(lines, states) == lines,
    decreases states.len(),
{
    if states.len() > 0 {
        let rest = states.drop_last();
        assert forall|k: int| 0 <= k < rest.len() && 1 <= (#[trigger] rest[k]).0 <= lines.len() implies (
        checkbox_index(lines[rest[k].0 - 1]) matches Some(i) ==> marker_state(
            lines[rest[k].0 - 1][i + 1],
        ) == Some(rest[k].1)) by {
            assert(rest[k] == states[k]);
        }
        law_writing_back_unchanged_is_identity(lines, rest);
        assert(states[states.len() - 1] == states.last());
        assert(mark_one(lines, states.last()) =~= lines);
    }
}

/// Two texts are of the same length, and differ at most in characters that are
/// markers in both.
pub open spec fn same_but_markers(a: Seq<char>, b: Seq<char>) -> bool {
    &&& a.len() == b.len()
    &&& forall|k: int|
        #![trigger a[k], b[k]]
        0 <= k < a.len() && a[k] != b[k] ==> marker_state(a[k]) is Some && marker_state(b[k])
            is Some
}

/// Lemma: two ways to mark a line differ at most in marker characters.
proof fn lemma_lines_differ_in_markers(line: Seq<char>, a: Seq<char>, b: Seq<char>)
    requires
        same_but_marker(line, a),
        same_but_marker(line, b),
    ensures
        same_but_markers(a, b),
{
    assert forall|k: int|
        #![trigger a[k], b[k]]
        0 <= k < a.len() && a[k] != b[k] implies marker_state(a[k]) is Some && marker_state(b[k])
            is Some by {
        let i = checkbox_index(line)->0;
        assert(checkbox_index(line) is Some);
        assert(first_checkbox_at(a, i));
        assert(first_checkbox_at(b, i));
    }
}

/// Lemma: joining lines that differ in markers gives texts that do.
proof fn lemma_joined_differ_in_markers(a: Seq<Seq<char>>, b: Seq<Seq<char>>, end: Seq<char>)
    requires
        a.len() == b.len(),
        forall|i: int| 0 <= i < a.len() ==> same_but_markers(#[trigger] a[i], b[i]),
    ensures
        same_but_markers(joined(a, end), joined(b, end)),
    decreases a.len(),
{
    if a.len() == 1 {
        assert(same_but_markers(a[0], b[0]));
    } else if a.len() > 1 {
        let front_a = a.drop_last();
        let front_b = b.drop_last();
        assert forall|i: int| 0 <= i < front_a.len() implies same_but_markers(
            #[trigger] front_a[i],
            front_b[i],
        ) by {
            assert(same_but_markers(a[i], b[i]));
        }
        lemma_joined_differ_in_markers(front_a, front_b, end);
        assert(same_but_markers(a[a.len() - 1], b[b.len() - 1]));
        lemma_concat_differ_in_markers(joined(front_a, end), joined(front_b, end), end, end);
        lemma_concat_differ_in_markers(
            joined(front_a, end) + end,
            joined(front_b, end) + end,
            a.last(),
            b.last(),
        );
    }
}

/// Lemma: texts that differ in markers, one after the other.
proof fn lemma_concat_differ_in_markers(
    a: Seq<char>,
    b: Seq<char>,
    c: Seq<char>,
    d: Seq<char>,
)
    requires
        same_but_markers(a, b),
        same_but_markers(c, d),
    ensures
        same_but_markers(a + c, b + d),
{
    assert forall|k: int|
        #![trigger (a + c)[k], (b + d)[k]]
        0 <= k < (a + c).len() && (a + c)[k] != (b + d)[k] implies marker_state((a + c)[k]) is Some
        && marker_state((b + d)[k]) is Some by {
        if k < a.len() {
            assert((a + c)[k] == a[k] && (b + d)[k] == b[k]);
        } else {
            assert((a + c)[k] == c[k - a.len()] && (b + d)[k] == d[k - a.len()]);
        }
    }
}

/// Whatever states the tasks of a document are in, what is written of it
/// differs in marker characters alone: all other characters, the line endings
/// and the length are the same.
pub proof fn law_states_change_only_markers_of_the_file(a: DocumentModel, b: DocumentModel)
    requires
        a.raw_lines == b.raw_lines,
        a.uses_crlf == b.uses_crlf,
        a.trailing_newline == b.trailing_newline,
    ensures
        same_but_markers(a.contents(), b.contents()),
{
    let lines = line_texts(a.raw_lines);
    let end = line_end(a.uses_crlf);
    let x = marked_lines(lines, model::task_states(a.lists));
    let y = marked_lines(lines, model::task_states(b.lists));
    law_only_markers_are_rewritten(lines, model::task_states(a.lists));
    law_only_markers_are_rewritten(lines, model::task_states(b.lists));
    assert forall|i: int| 0 <= i < x.len() implies same_but_markers(#[trigger] x[i], y[i]) by {
        lemma_lines_differ_in_markers(lines[i], x[i], y[i]);
    }
    lemma_joined_differ_in_markers(x, y, end);
    lemma_concat_differ_in_markers(joined(x, end), joined(y, end), end, end);
}

} // verus!
