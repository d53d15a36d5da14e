//! Laws of reading what git prints: words, lines, numbers, and records that a
//! zero byte ends.

use vstd::prelude::*;

use crate::git_flow::Text;
use crate::git_step::{Markers, Output, Reply};
use crate::{git_flow, git_text, text};

verus! {

/// No character of the text is white space.
pub open spec fn is_unbroken(s: Text) -> bool {
    forall|i: int| 0 <= i < s.len() ==> !git_text::is_space(#[trigger] s[i])
}

/// Every character of the text is white space.
pub open spec fn is_blank(s: Text) -> bool {
    forall|i: int| 0 <= i < s.len() ==> git_text::is_space(#[trigger] s[i])
}

// ----- Words -----------------------------------------------------------

/// Lemma: where the word that a text begins with ends.
proof fn lemma_word_ends(s: Text, n: int)
    requires
        0 <= n <= s.len(),
        forall|i: int| 0 <= i < n ==> !git_text::is_space(#[trigger] s[i]),
        n == s.len() || git_text::is_space(s[n]),
    ensures
        git_text::word_length(s) == n,
    decreases n,
{
    if n > 0 {
        let rest = s.skip(1);
        assert(!git_text::is_space(s[0]));
        assert forall|i: int| 0 <= i < n - 1 implies !git_text::is_space(#[trigger] rest[i]) by {
            assert(rest[i] == s[i + 1]);
        }
        if n < s.len() {
            assert(rest[n - 1] == s[n]);
        }
        lemma_word_ends(rest, n - 1);
    }
}

/// Lemma: what the length of the first word says.
proof fn lemma_word_is(s: Text)
    ensures
        git_text::word_length(s) <= s.len(),
        forall|i: int|
            0 <= i < git_text::word_length(s) ==> !git_text::is_space(#[trigger] s[i]),
        git_text::word_length(s) == s.len() || git_text::is_space(
            s[git_text::word_length(s) as int],
        ),
    decreases s.len(),
{
    if s.len() > 0 && !git_text::is_space(s[0]) {
        let rest = s.skip(1);
        lemma_word_is(rest);
        let n = git_text::word_length(s);
        assert forall|i: int| 0 <= i < n implies !git_text::is_space(#[trigger] s[i]) by {
            if i > 0 {
                assert(rest[i - 1] == s[i]);
            }
        }
        if n < s.len() {
            assert(rest[n - 1] == s[n as int]);
        }
    }
}

/// Lemma: white space at the beginning adds no word.
proof fn lemma_blank_start(s: Text)
    requires
        s.len() > 0,
        git_text::is_space(s[0]),
    ensures
        git_text::words(s) == git_text::words(s.skip(1)),
{
    assert(git_text::trim_start(s) == git_text::trim_start(s.skip(1)));
    lemma_words_of_trimmed(s);
    lemma_words_of_trimmed(s.skip(1));
}

/// Lemma: the words of a text, by its beginning without white space.
proof fn lemma_words_of_trimmed(s: Text)
    ensures
        ({
            let t = git_text::trim_start(s);
            let n = git_text::word_length(t) as int;
            git_text::words(s) == if t.len() == 0 {
                Seq::empty()
            } else {
                seq![t.take(n)] + git_text::words(t.skip(n))
            }
        }),
{
}

/// Law: a text without white space is one word, and nothing is none.
pub proof fn law_unbroken_text_is_one_word(w: Text)
    requires
        is_unbroken(w),
    ensures
        w.len() > 0 ==> git_text::words(w) == seq![w],
        w.len() == 0 ==> git_text::words(w).len() == 0,
{
    if w.len() > 0 {
        lemma_word_ends(w, w.len() as int);
        assert(!git_text::is_space(w[0]));
        lemma_words_of_trimmed(w);
        assert(w.take(w.len() as int) =~= w);
        assert(w.skip(w.len() as int) =~= Seq::empty());
        assert(git_text::words(Seq::empty()) =~= Seq::empty());
    }
}

/// Law: white space parts the words: those of a text with a white character in
/// it are those before the character and then those after it.
pub proof fn law_white_space_parts_words(a: Text, c: char, b: Text)
    requires
        git_text::is_space(c),
    ensures
        git_text::words(a.push(c) + b) == git_text::words(a) + git_text::words(b),
    decreases a.len(),
{
    let s = a.push(c) + b;
    if a.len() == 0 {
        assert(s.skip(1) =~= b);
        lemma_blank_start(s);
        assert(git_text::words(a) =~= Seq::empty());
    } else if git_text::is_space(a[0]) {
        assert(s[0] == a[0]);
        lemma_blank_start(s);
        lemma_blank_start(a);
        assert(s.skip(1) =~= a.skip(1).push(c) + b);
        law_white_space_parts_words(a.skip(1), c, b);
    } else {
        lemma_word_is(a);
        let n = git_text::word_length(a) as int;
        assert forall|i: int| 0 <= i < n implies !git_text::is_space(#[trigger] s[i]) by {
            assert(s[i] == a[i]);
        }
        assert(s[n] == if n < a.len() {
            a[n]
        } else {
            c
        });
        lemma_word_ends(s, n);
        assert(s[0] == a[0]);
        lemma_words_of_trimmed(s);
        lemma_words_of_trimmed(a);
        assert(git_text::trim_start(s) == s);
        assert(git_text::trim_start(a) == a);
        assert(s.take(n) =~= a.take(n));
        if n == 0 {
            assert(git_text::word_length(a) > 0);
        }
        assert(s.skip(n) =~= a.skip(n).push(c) + b);
        law_white_space_parts_words(a.skip(n), c, b);
        assert(seq![a.take(n)] + (git_text::words(a.skip(n)) + git_text::words(b)) =~= seq![
            a.take(n),
        ] + git_text::words(a.skip(n)) + git_text::words(b));
    }
}

// ----- White space -----------------------------------------------------

/// Law: trimming takes white space away at both ends, all of it, and nothing
/// else.
pub proof fn law_trimming_takes_only_white_space(s: Text)
    ensures
        exists|a: Text, b: Text|
            s == #[trigger] (a + git_text::trim(s) + b) && is_blank(a) && is_blank(b),
        git_text::trim(s).len() > 0 ==> !git_text::is_space(git_text::trim(s)[0])
            && !git_text::is_space(git_text::trim(s).last()),
{
    let t = git_text::trim_start(s);
    let a = lemma_trim_start(s);
    let b = lemma_trim_end(t);
    let out = git_text::trim(s);
    assert(t == out + b);
    assert(s =~= a + out + b);
    if out.len() > 0 {
        assert(out[0] == t[0]);
    }
}

/// Lemma: what trimming the beginning takes away.
proof fn lemma_trim_start(s: Text) -> (a: Text)
    ensures
        s == a + git_text::trim_start(s),
        is_blank(a),
        git_text::trim_start(s).len() > 0 ==> !git_text::is_space(git_text::trim_start(s)[0]),
    decreases s.len(),
{
    if s.len() > 0 && git_text::is_space(s[0]) {
        let rest = lemma_trim_start(s.skip(1));
        let a = seq![s[0]] + rest;
        assert(s =~= seq![s[0]] + s.skip(1));
        assert(s =~= a + git_text::trim_start(s));
        a
    } else {
        assert(s =~= Seq::<char>::empty() + s);
        Seq::empty()
    }
}

/// Lemma: what trimming the end takes away.
proof fn lemma_trim_end(s: Text) -> (b: Text)
    ensures
        s == git_text::trim_end(s) + b,
        is_blank(b),
        git_text::trim_end(s).len() > 0 ==> !git_text::is_space(git_text::trim_end(s).last()),
    decreases s.len(),
{
    if s.len() > 0 && git_text::is_space(s.last()) {
        let rest = lemma_trim_end(s.drop_last());
        let b = rest.push(s.last());
        assert(s =~= s.drop_last().push(s.last()));
        assert(s =~= git_text::trim_end(s) + b);
        b
    } else {
        assert(s =~= s + Seq::<char>::empty());
        Seq::empty()
    }
}

// ----- Lines -----------------------------------------------------------

/// The text has no line feed.
pub open spec fn without_feed(s: Text) -> bool {
    forall|i: int| 0 <= i < s.len() ==> #[trigger] s[i] != '\n'
}

/// Lemma: where the line that a text begins with ends.
proof fn lemma_line_ends(s: Text, n: int)
    requires
        0 <= n <= s.len(),
        forall|i: int| 0 <= i < n ==> #[trigger] s[i] != '\n',
        n == s.len() || s[n] == '\n',
    ensures
        git_text::line_length(s) == n,
    decreases n,
{
    if n > 0 {
        let rest = s.skip(1);
        assert(s[0] != '\n');
        assert forall|i: int| 0 <= i < n - 1 implies #[trigger] rest[i] != '\n' by {
            assert(rest[i] == s[i + 1]);
        }
        if n < s.len() {
            assert(rest[n - 1] == s[n]);
        }
        lemma_line_ends(rest, n - 1);
    }
}

/// Law: a text is read line by line: what stands before the first line feed is
/// the first line, without a carriage return at its end; the lines of what
/// stands after the line feed follow. What stands after the last line feed is a
/// line if it is anything.
pub proof fn law_lines_are_parted_by_feeds(line: Text, rest: Text)
    requires
        without_feed(line),
    ensures
        git_text::lines(line + seq!['\n'] + rest) == seq![
            if line.len() > 0 && line.last() == '\r' {
                line.drop_last()
            } else {
                line
            },
        ] + git_text::lines(rest),
        line.len() > 0 ==> git_text::lines(line) == seq![line],
        line.len() == 0 ==> git_text::lines(line).len() == 0,
{
    let s = line + seq!['\n'] + rest;
    let n = line.len() as int;
    assert forall|i: int| 0 <= i < n implies #[trigger] s[i] != '\n' by {
        assert(s[i] == line[i]);
    }
    assert(s[n] == '\n');
    lemma_line_ends(s, n);
    lemma_line_ends(line, n);
    assert(s.take(n) =~= line);
    assert(s.skip(n + 1) =~= rest);
}

// ----- Numbers ---------------------------------------------------------

/// Lemma: digits are read from left to right.
proof fn lemma_digits(s: Text)
    requires
        git_text::all_digits(s),
    ensures
        git_text::digits_value(s) == value_of(s),
    decreases s.len(),
{
    if s.len() > 0 {
        let front = s.drop_last();
        assert forall|i: int| 0 <= i < front.len() implies '0' <= #[trigger] front[i] && front[i]
            <= '9' by {
            assert(front[i] == s[i]);
        }
        lemma_digits(front);
        assert('0' <= s[s.len() - 1] && s[s.len() - 1] <= '9');
    }
}

/// The number that a text of digits stands for, read from left to right.
pub open spec fn value_of(digits: Text) -> int {
    digits.fold_left(0int, |value: int, c: char| value * 10 + (c as int - '0' as int))
}

/// The text is digits, one at least.
pub open spec fn is_numeric(digits: Text) -> bool {
    digits.len() > 0 && forall|i: int|
        0 <= i < digits.len() ==> '0' <= #[trigger] digits[i] && digits[i] <= '9'
}

/// Law: a number is decimal digits and nothing else but one plus sign before
/// them, read from left to right, of at most 64 bits.
pub proof fn law_numbers_are_read(s: Text, digits: Text, n: u64)
    requires
        s == seq!['+'] + digits || (s == digits && (s.len() == 0 || s[0] != '+')),
    ensures
        git_text::parsed_number(s) == Some(n) <==> is_numeric(digits) && value_of(digits) == n,
        git_text::parsed_number(s) is None <==> !(is_numeric(digits) && value_of(digits)
            <= u64::MAX),
{
    if s.len() > 0 && s[0] == '+' {
        assert(s.skip(1) =~= digits);
    }
    assert(git_text::number_digits(s) == digits);
    if git_text::all_digits(digits) {
        lemma_digits(digits);
        assert(value_of(digits) == git_text::digits_value(digits));
    }
}

// ----- Records ---------------------------------------------------------

/// No byte is zero.
pub open spec fn without_zero(s: Seq<u8>) -> bool {
    forall|i: int| 0 <= i < s.len() ==> #[trigger] s[i] != 0
}

/// Law: the first record is what stands between zero bytes, or the ends, after
/// any zero bytes at the beginning, whatever follows it.
pub proof fn law_first_record_is_found(zeros: Seq<u8>, record: Seq<u8>, rest: Seq<u8>)
    requires
        forall|i: int| 0 <= i < zeros.len() ==> #[trigger] zeros[i] == 0,
        without_zero(record),
        record.len() > 0,
        rest.len() == 0 || rest[0] == 0,
    ensures
        git_text::first_record(zeros + record + rest) == Some(record),
        git_text::first_record(zeros) is None,
{
    let s = zeros + record + rest;
    let a = zeros.len() as int;
    let b = a + record.len();
    assert forall|j: int| 0 <= j < a implies !(git_text::nonzero())(#[trigger] s[j]) by {
        assert(s[j] == zeros[j]);
    }
    assert(s[a] == record[0]);
    text::lemma_first_from_is(s, git_text::nonzero(), 0, a);
    assert forall|j: int| a <= j < b implies !(git_text::zero())(#[trigger] s[j]) by {
        assert(s[j] == record[j - a]);
    }
    if rest.len() > 0 {
        assert(s[b] == rest[0]);
        text::lemma_first_from_is(s, git_text::zero(), a, b);
    } else {
        assert(s.len() == b);
        text::lemma_first_from_none(s, git_text::zero(), a);
    }
    assert(s.subrange(a, b) =~= record);
    assert forall|j: int| 0 <= j < zeros.len() implies !(git_text::nonzero())(
        #[trigger] zeros[j],
    ) by {}
    text::lemma_first_from_none(zeros, git_text::nonzero(), 0);
}

/// Law: a line is parted at its first tab, and what stands on either side is
/// taken as it is.
pub proof fn law_parted_at_the_first_tab(a: Text, b: Text)
    requires
        forall|i: int| 0 <= i < a.len() ==> #[trigger] a[i] != '\t',
    ensures
        git_text::around_tab(a + seq!['\t'] + b) == Some((a, b)),
        git_text::around_tab(a) is None,
{
    let s = a + seq!['\t'] + b;
    let n = a.len() as int;
    assert forall|j: int| 0 <= j < n implies !(git_text::tab())(#[trigger] s[j]) by {
        assert(s[j] == a[j]);
    }
    assert(s[n] == '\t');
    text::lemma_first_from_is(s, git_text::tab(), 0, n);
    assert(s.take(n) =~= a);
    assert(s.skip(n + 1) =~= b);
    text::lemma_first_from_none(a, git_text::tab(), 0);
}

/// A successful reply that printed `stdout`.
pub open spec fn prints(r: Reply, stdout: Seq<u8>) -> bool {
    r matches Reply::Ran(output) && output.success && output.stdout@ == stdout
}

/// Law: the index entry that git prints is read as it stands: the mode is what
/// stands before the first white space, and the path is everything behind the
/// first tab, spaces, slashes and tabs included.
pub proof fn law_entry_is_read_as_it_stands(
    r: Reply,
    record: Seq<u8>,
    rest: Seq<u8>,
    mode: Text,
    c: char,
    more: Text,
    path: Text,
)
    requires
        without_zero(record),
        record.len() > 0,
        prints(r, record + seq![0u8] + rest),
        is_unbroken(mode),
        mode.len() > 0,
        git_text::is_space(c),
        git_text::lossy_text(record) == mode.push(c) + more + seq!['\t'] + path,
        forall|i: int|
            0 <= i < (mode.push(c) + more).len() ==> #[trigger] (mode.push(c) + more)[i] != '\t',
    ensures
        git_flow::entry_of(r) == Ok::<Option<(Text, Text)>, Text>(Some((mode, path))),
{
    let info = mode.push(c) + more;
    lemma_record_of(r, record, rest);
    law_parted_at_the_first_tab(info, path);
    law_white_space_parts_words(mode, c, more);
    law_unbroken_text_is_one_word(mode);
    assert(git_text::words(info)[0] == mode);
}

/// Lemma: the first record that a command printed.
proof fn lemma_record_of(r: Reply, record: Seq<u8>, rest: Seq<u8>)
    requires
        without_zero(record),
        record.len() > 0,
        prints(r, record + seq![0u8] + rest),
    ensures
        git_flow::succeeded(r),
        git_text::first_record(git_flow::printed(r)) == Some(record),
{
    let tail = seq![0u8] + rest;
    assert(record + seq![0u8] + rest =~= Seq::<u8>::empty() + record + tail);
    law_first_record_is_found(Seq::empty(), record, tail);
}

/// Law: an entry of any form, whose information before the tab has at least one
/// word, gives its first word as the mode and its path unchanged; one without a
/// tab, or without a word before it, is an error; nothing printed is no entry;
/// and a failed command is an error.
pub proof fn law_entries(r: Reply, record: Seq<u8>, rest: Seq<u8>, info: Text, path: Text)
    requires
        without_zero(record),
        record.len() > 0,
        forall|i: int| 0 <= i < info.len() ==> #[trigger] info[i] != '\t',
    ensures
        prints(r, record + seq![0u8] + rest) && git_text::lossy_text(record) == info + seq!['\t']
            + path && git_text::words(info).len() > 0 ==> git_flow::entry_of(r) == Ok::<
            Option<(Text, Text)>,
            Text,
        >(Some((git_text::words(info)[0], path))),
        prints(r, record + seq![0u8] + rest) && git_text::lossy_text(record) == info + seq!['\t']
            + path && git_text::words(info).len() == 0 ==> git_flow::entry_of(r) is Err,
        prints(r, record + seq![0u8] + rest) && git_text::lossy_text(record) == info
            ==> git_flow::entry_of(r) is Err,
        prints(r, Seq::empty()) ==> git_flow::entry_of(r) == Ok::<Option<(Text, Text)>, Text>(None),
        !(r matches Reply::Ran(output) && output.success) ==> git_flow::entry_of(r) is Err,
{
    if prints(r, record + seq![0u8] + rest) {
        lemma_record_of(r, record, rest);
        law_parted_at_the_first_tab(info, path);
    }
    law_first_record_is_found(Seq::empty(), record, Seq::empty());
}

/// Law: the blob of an index entry is the second word of what git prints before
/// the tab.
pub proof fn law_blob_is_the_second_word(
    r: Reply,
    record: Seq<u8>,
    rest: Seq<u8>,
    mode: Text,
    blob: Text,
    more: Text,
    c: char,
    d: char,
    path: Text,
)
    requires
        without_zero(record),
        record.len() > 0,
        prints(r, record + seq![0u8] + rest),
        is_unbroken(mode),
        mode.len() > 0,
        is_unbroken(blob),
        blob.len() > 0,
        git_text::is_space(c),
        git_text::is_space(d),
        git_text::lossy_text(record) == mode.push(c) + (blob.push(d) + more) + seq!['\t'] + path,
        forall|i: int|
            0 <= i < (mode.push(c) + (blob.push(d) + more)).len() ==> #[trigger] (mode.push(c) + (
            blob.push(d) + more))[i] != '\t',
    ensures
        git_flow::entry_blob(r) == Some(blob),
{
    let info = mode.push(c) + (blob.push(d) + more);
    lemma_record_of(r, record, rest);
    law_parted_at_the_first_tab(info, path);
    law_white_space_parts_words(mode, c, blob.push(d) + more);
    law_white_space_parts_words(blob, d, more);
    law_unbroken_text_is_one_word(mode);
    law_unbroken_text_is_one_word(blob);
    assert(git_text::words(info)[1] == blob);
}

// ----- Paths that commits touch ----------------------------------------

/// The paths, a zero byte after each.
pub open spec fn listed(paths: Seq<Seq<u8>>) -> Seq<u8> {
    Seq::new(paths.len(), |i: int| paths[i].push(0u8)).flatten()
}

/// Lemma: the fields of a list of paths are those paths.
proof fn lemma_fields(paths: Seq<Seq<u8>>, a: int, b: int) -> (k: int)
    requires
        forall|i: int| 0 <= i < paths.len() ==> without_zero(#[trigger] paths[i]),
        git_text::is_field(listed(paths), a, b),
        a < b,
    ensures
        0 <= k < paths.len(),
        paths[k] == listed(paths).subrange(a, b),
    decreases paths.len(),
{
    let s = listed(paths);
    let pieces = Seq::new(paths.len(), |i: int| paths[i].push(0u8));
    if paths.len() == 0 {
        assert(s =~= Seq::empty());
        0
    } else {
        let first = paths[0];
        let n = first.len() as int;
        let rest = paths.drop_first();
        let more = Seq::new(rest.len(), |i: int| rest[i].push(0u8));
        assert(pieces.drop_first() =~= more);
        assert(s == first.push(0u8) + listed(rest));
        assert(s[n] == 0);
        assert forall|i: int| 0 <= i < rest.len() implies without_zero(#[trigger] rest[i]) by {
            assert(rest[i] == paths[i + 1]);
        }
        assert(without_zero(paths[0]));
        if a <= n {
            if a > 0 {
                assert(s[a - 1] == first[a - 1]);
            }
            assert(a == 0 || a - 1 == n);
            if b < n {
                assert(s[b] == first[b]);
            }
            if n < b {
                assert(s[n] != 0);
            }
            assert(s.subrange(a, b) =~= first);
            0
        } else {
            let t = listed(rest);
            let x = a - n - 1;
            let y = b - n - 1;
            assert forall|i: int| x <= i < y implies #[trigger] t[i] != 0 by {
                assert(t[i] == s[i + n + 1]);
            }
            if x > 0 {
                assert(t[x - 1] == s[a - 1]);
            }
            if y < t.len() {
                assert(t[y] == s[b]);
            }
            assert(git_text::is_field(t, x, y));
            let k = lemma_fields(rest, x, y);
            assert(t.subrange(x, y) =~= s.subrange(a, b));
            assert(rest[k] == paths[k + 1]);
            k + 1
        }
    }
}

/// Lemma: each of a list of paths is a field of it.
proof fn lemma_field_of(paths: Seq<Seq<u8>>, k: int) -> (r: (int, int))
    requires
        forall|i: int| 0 <= i < paths.len() ==> without_zero(#[trigger] paths[i]),
        0 <= k < paths.len(),
    ensures
        git_text::is_field(listed(paths), r.0, r.1),
        r.1 - r.0 == paths[k].len(),
        listed(paths).subrange(r.0, r.1) == paths[k],
    decreases paths.len(),
{
    let s = listed(paths);
    let pieces = Seq::new(paths.len(), |i: int| paths[i].push(0u8));
    let first = paths[0];
    let n = first.len() as int;
    let rest = paths.drop_first();
    let more = Seq::new(rest.len(), |i: int| rest[i].push(0u8));
    assert(pieces.drop_first() =~= more);
    let t = listed(rest);
    assert(s == first.push(0u8) + t);
    assert(s[n] == 0);
    assert(without_zero(paths[0]));
    if k == 0 {
        assert forall|i: int| 0 <= i < n implies #[trigger] s[i] != 0 by {
            assert(s[i] == first[i]);
        }
        assert(s.subrange(0, n) =~= first);
        (0, n)
    } else {
        assert forall|i: int| 0 <= i < rest.len() implies without_zero(#[trigger] rest[i]) by {
            assert(rest[i] == paths[i + 1]);
        }
        assert(rest[k - 1] == paths[k]);
        let (x, y) = lemma_field_of(rest, k - 1);
        let a = x + n + 1;
        let b = y + n + 1;
        assert forall|i: int| a <= i < b implies #[trigger] s[i] != 0 by {
            assert(s[i] == t[i - n - 1]);
        }
        if x > 0 {
            assert(s[a - 1] == t[x - 1]);
        }
        if y < t.len() {
            assert(s[b] == t[y]);
        }
        assert(s.subrange(a, b) =~= t.subrange(x, y));
        (a, b)
    }
}

/// Law: of the paths that commits touch, listed with a zero byte after each, one
/// is `path` exactly if `path` is among them, and another one is touched exactly
/// if some other path is.
pub proof fn law_touched_paths(paths: Seq<Seq<u8>>, path: Seq<u8>)
    requires
        forall|i: int| 0 <= i < paths.len() ==> without_zero(#[trigger] paths[i]),
        forall|i: int| 0 <= i < paths.len() ==> (#[trigger] paths[i]).len() > 0,
    ensures
        git_text::has_path(listed(paths), path) <==> exists|i: int|
            0 <= i < paths.len() && #[trigger] paths[i] == path,
        git_text::has_other_path(listed(paths), path) <==> exists|i: int|
            0 <= i < paths.len() && #[trigger] paths[i] != path,
{
    let s = listed(paths);
    if git_text::has_path(s, path) {
        let (a, b) = choose|a: int, b: int|
            git_text::is_field(s, a, b) && a < b && #[trigger] s.subrange(a, b) == path;
        let k = lemma_fields(paths, a, b);
        assert(paths[k] == path);
    }
    if git_text::has_other_path(s, path) {
        let (a, b) = choose|a: int, b: int|
            git_text::is_field(s, a, b) && a < b && #[trigger] s.subrange(a, b) != path;
        let k = lemma_fields(paths, a, b);
        assert(paths[k] != path);
    }
    if exists|i: int| 0 <= i < paths.len() && #[trigger] paths[i] == path {
        let k = choose|i: int| 0 <= i < paths.len() && #[trigger] paths[i] == path;
        let (a, b) = lemma_field_of(paths, k);
        assert(s.subrange(a, b) == path);
    }
    if exists|i: int| 0 <= i < paths.len() && #[trigger] paths[i] != path {
        let k = choose|i: int| 0 <= i < paths.len() && #[trigger] paths[i] != path;
        let (a, b) = lemma_field_of(paths, k);
        assert(s.subrange(a, b) != path);
    }
}

/// Lemma: a zero byte at the end parts nothing new.
proof fn lemma_field_before_zero(s: Seq<u8>, a: int, b: int)
    requires
        a < b,
    ensures
        git_text::is_field(s, a, b) <==> git_text::is_field(s.push(0u8), a, b),
        git_text::is_field(s, a, b) ==> s.subrange(a, b) == s.push(0u8).subrange(a, b),
{
    let t = s.push(0u8);
    if git_text::is_field(s, a, b) {
        assert forall|i: int| a <= i < b implies #[trigger] t[i] != 0 by {
            assert(t[i] == s[i]);
        }
        assert(t.subrange(a, b) =~= s.subrange(a, b));
    }
    if git_text::is_field(t, a, b) {
        if b == t.len() {
            assert(t[b - 1] != 0);
        }
        assert forall|i: int| a <= i < b implies #[trigger] s[i] != 0 by {
            assert(t[i] == s[i]);
        }
    }
}

/// Law: the last of the paths that commits touch counts with or without a zero
/// byte after it.
pub proof fn law_last_path_counts(s: Seq<u8>, path: Seq<u8>)
    ensures
        git_text::has_path(s, path) == git_text::has_path(s.push(0u8), path),
        git_text::has_other_path(s, path) == git_text::has_other_path(s.push(0u8), path),
{
    let t = s.push(0u8);
    if git_text::has_path(s, path) {
        let (a, b) = choose|a: int, b: int|
            git_text::is_field(s, a, b) && a < b && #[trigger] s.subrange(a, b) == path;
        lemma_field_before_zero(s, a, b);
        assert(t.subrange(a, b) == path);
    }
    if git_text::has_path(t, path) {
        let (a, b) = choose|a: int, b: int|
            git_text::is_field(t, a, b) && a < b && #[trigger] t.subrange(a, b) == path;
        lemma_field_before_zero(s, a, b);
        assert(s.subrange(a, b) == path);
    }
    if git_text::has_other_path(s, path) {
        let (a, b) = choose|a: int, b: int|
            git_text::is_field(s, a, b) && a < b && #[trigger] s.subrange(a, b) != path;
        lemma_field_before_zero(s, a, b);
        assert(t.subrange(a, b) != path);
    }
    if git_text::has_other_path(t, path) {
        let (a, b) = choose|a: int, b: int|
            git_text::is_field(t, a, b) && a < b && #[trigger] t.subrange(a, b) != path;
        lemma_field_before_zero(s, a, b);
        assert(s.subrange(a, b) != path);
    }
}

// ----- Commits ---------------------------------------------------------

/// Law: commits are listed by the first word of each line, each followed by a
/// line feed, in order; a line without a word lists none.
pub proof fn law_commits_are_listed_in_order(a: Seq<Text>, b: Seq<Text>)
    ensures
        git_flow::commit_list(a + b) == git_flow::commit_list(a) + git_flow::commit_list(b),
        a.len() == 0 ==> git_flow::commit_list(a).len() == 0,
        a.len() == 1 ==> git_flow::commit_list(a) == if git_text::words(a[0]).len() > 0 {
            git_text::words(a[0])[0].push('\n')
        } else {
            Seq::empty()
        },
    decreases b.len(),
{
    reveal_strlit("\n");
    if a.len() == 1 {
        assert(git_flow::commit_list(a.drop_last()) =~= Seq::empty());
        if git_text::words(a[0]).len() > 0 {
            assert(Seq::<char>::empty() + git_text::words(a[0])[0] + "\n"@ =~= git_text::words(
                a[0],
            )[0].push('\n'));
        }
    }
    if b.len() == 0 {
        assert(a + b =~= a);
        assert(git_flow::commit_list(a) + git_flow::commit_list(b) =~= git_flow::commit_list(a));
    } else {
        law_commits_are_listed_in_order(a, b.drop_last());
        assert((a + b).drop_last() =~= a + b.drop_last());
        assert((a + b).last() == b.last());
        assert(git_flow::commit_list(a + b) =~= git_flow::commit_list(a) + git_flow::commit_list(
            b,
        ));
    }
}

/// Law: a listing has a merge exactly if one of its lines has three words or
/// more: a commit and two parents.
pub proof fn law_merges_have_two_parents(lines: Seq<Text>)
    ensures
        git_flow::has_merge(lines) <==> exists|i: int|
            0 <= i < lines.len() && git_text::words(#[trigger] lines[i]).len() >= 3,
{
}

/// Law: a commit that is listed with one parent is a child of that parent and
/// of no other, one that is listed alone is a child of none, and one with two
/// parents is a child of neither.
pub proof fn law_child_of_its_one_parent(r: Reply, out: Output, line: Text, rest: Text, p: Text)
    requires
        r == Reply::Ran(out),
        out.success,
        without_feed(line),
        line.len() > 0,
        line.last() != '\r',
        git_text::lossy_text(out.stdout@) == line + seq!['\n'] + rest,
    ensures
        git_flow::is_child_of(r, Some(p)) <==> git_text::words(line).len() == 2 && git_text::words(
            line,
        )[1] == p,
        git_flow::is_child_of(r, None) <==> git_text::words(line).len() <= 1,
        git_flow::first_parent(r) == if git_text::words(line).len() >= 2 {
            Some(git_text::words(line)[1])
        } else {
            None
        },
{
    law_lines_are_parted_by_feeds(line, rest);
    let said = git_text::lines(git_text::lossy_text(out.stdout@));
    assert(said[0] == line);
}

// ----- Answers ---------------------------------------------------------

/// Law: what a command failed with is its name and the first line that it
/// printed as an error, white space around it left out.
pub proof fn law_error_is_the_first_line(name: Text, stderr: Seq<u8>, line: Text, rest: Text)
    requires
        without_feed(line),
        git_text::lossy_text(stderr) == line + seq!['\n'] + rest,
        line.len() == 0 || line.last() != '\r',
    ensures
        git_text::command_error_text(name, stderr) == name + seq![':', ' '] + git_text::trim(line),
{
    reveal_strlit(": ");
    law_lines_are_parted_by_feeds(line, rest);
    assert(": "@ =~= seq![':', ' ']);
    assert(git_text::lines(git_text::lossy_text(stderr))[0] == line);
}

/// Law: an answer counts only from a command that succeeded; exit code 1 says
/// that there is none, where it may; anything else is a failure.
pub proof fn law_answers_count_from_success(name: Text, r: Reply)
    ensures
        ({
            let ok = r matches Reply::Ran(output) && output.success;
            let none = r matches Reply::Ran(output) && output.code == Some(1i32);
            &&& git_flow::answer_if_ok(r) is Some <==> ok
            &&& git_flow::answer_or_failure(name, r) is Ok <==> ok
            &&& git_flow::done_or_failure(name, r) is Ok <==> ok
            &&& git_flow::bytes_if_ok(r) is Some <==> ok
            &&& git_flow::answer_or_none(name, r) is Ok <==> ok || none
            &&& !ok && none ==> git_flow::answer_or_none(name, r) == Ok::<Option<Text>, Text>(None)
            &&& ok ==> git_flow::answer_or_none(name, r) == Ok::<Option<Text>, Text>(
                git_flow::answer_if_ok(r),
            )
            &&& ok ==> git_flow::answer_or_failure(name, r) == Ok::<Text, Text>(
                git_flow::answer_if_ok(r)->0,
            )
            &&& ok ==> git_flow::bytes_if_ok(r) == Some(r->Ran_0.stdout@)
            &&& ok ==> git_flow::answer_if_ok(r) == Some(
                git_text::trim(git_text::lossy_text(r->Ran_0.stdout@)),
            )
        }),
{
}

/// Law: unfinished work of any kind forbids a commit, and nothing else found in
/// the git directory does.
pub proof fn law_any_unfinished_work_forbids(r: Reply)
    ensures
        r matches Reply::Markers(m) ==> (git_flow::unfinished_work(r) is Some <==> m.merge
            || m.cherry_pick || m.revert || m.bisect || m.rebase),
        !(r is Markers) ==> git_flow::unfinished_work(r) is None,
{
}

/// Law: unfinished work is called by its name; of several kinds a merge goes
/// first, then a cherry-pick, a revert, a bisection and a rebase.
pub proof fn law_unfinished_work_is_named(m: Markers)
    ensures
        ({
            let found = git_flow::unfinished_work(Reply::Markers(m));
            &&& m.merge ==> found == Some("git-sync: repository has a merge in progress"@)
            &&& !m.merge && m.cherry_pick ==> found == Some(
                "git-sync: repository has a cherry-pick in progress"@,
            )
            &&& !m.merge && !m.cherry_pick && m.revert ==> found == Some(
                "git-sync: repository has a revert in progress"@,
            )
            &&& !m.merge && !m.cherry_pick && !m.revert && m.bisect ==> found == Some(
                "git-sync: repository has a bisect in progress"@,
            )
            &&& !m.merge && !m.cherry_pick && !m.revert && !m.bisect && m.rebase ==> found == Some(
                "git-sync: repository has a rebase in progress"@,
            )
        }),
{
}

/// Law: a command that failed without a word is reported so; a reply that belongs
/// to another step is a failure; and an entry that has no tab, or nothing before
/// it, is refused, with what git printed.
pub proof fn law_odd_replies_are_reported(name: Text, stderr: Seq<u8>, r: Reply, record: Seq<u8>)
    ensures
        git_text::lossy_text(stderr).len() == 0 ==> git_text::command_error_text(name, stderr)
            == name + ": "@ + "unknown error"@,
        r is Markers || r is Checklist || r is Done ==> git_flow::failure(name, r) == name
            + " failed: "@ + "unexpected reply"@,
        git_flow::succeeded(r) && git_text::first_record(git_flow::printed(r)) == Some(record) && (
        git_text::around_tab(git_text::lossy_text(record)) is None || git_text::words(
            (git_text::around_tab(git_text::lossy_text(record))->0).0,
        ).len() == 0) ==> git_flow::entry_of(r) == Err::<Option<(Text, Text)>, Text>(
            "git ls-files: unexpected output "@ + git_text::debug_form(
                git_text::lossy_text(record),
            ),
        ),
        git_flow::succeeded(r) && git_text::first_record(git_flow::printed(r)) is None
            ==> git_flow::entry_of(r) == Ok::<Option<(Text, Text)>, Text>(None),
{
}

/// Law: the file accounts for what was last asked for exactly if it could be
/// read and has that hash.
pub proof fn law_accounted_for_by_hash(r: Reply)
    ensures
        git_flow::accounted_for(r) <==> (r matches Reply::Checklist { disk, latest } && disk
            == Some(latest)),
{
}

// ----- Paths -----------------------------------------------------------

/// Law: a path is taken from a directory by a slash between them, one and no
/// more; a path from the root stays as it is.
pub proof fn law_paths_are_joined(base: Text, path: Text)
    ensures
        path.len() > 0 && path[0] == '/' ==> git_text::joined_path(base, path) == path,
        base.len() == 0 ==> git_text::joined_path(base, path) == path,
        base.len() > 0 && base.last() == '/' && !(path.len() > 0 && path[0] == '/')
            ==> git_text::joined_path(base, path) == base + path,
        base.len() > 0 && base.last() != '/' && !(path.len() > 0 && path[0] == '/')
            ==> git_text::joined_path(base, path) == base + seq!['/'] + path,
{
    reveal_strlit("/");
    assert("/"@ =~= seq!['/']);
}

} // verus!
