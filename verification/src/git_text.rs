//! Reading what git prints.

use vstd::prelude::*;

use crate::git_step;
use crate::text;
use crate::text::{chars_of, copy_of, string_of};

verus! {

// ----- Bytes to text ---------------------------------------------------

/// What `String::from_utf8_lossy` makes of `bytes`.
pub uninterp spec fn lossy_text(bytes: Seq<u8>) -> Seq<char>;

/// `String::from_utf8_lossy`: the bytes as text. Bytes that are UTF-8 give the
/// text that they encode; how others are replaced is left unsaid.
#[verifier::external_body]
fn from_utf8_lossy(bytes: &[u8]) -> (r: String)
    ensures
        r@ == lossy_text(bytes@),
        vstd::utf8::valid_utf8(bytes@) ==> vstd::utf8::encode_utf8(r@) == bytes@,
{
    String::from_utf8_lossy(bytes).into_owned()
}

/// The bytes as text. Bytes that are UTF-8 give the text that they encode.
pub fn lossy(bytes: &[u8]) -> (r: String)
    ensures
        r@ == lossy_text(bytes@),
        vstd::utf8::valid_utf8(bytes@) ==> vstd::utf8::encode_utf8(r@) == bytes@,
{
    from_utf8_lossy(bytes)
}

/// How the debug formatting of a text writes it: in quotes, with escapes.
pub uninterp spec fn debug_form(s: Seq<char>) -> Seq<char>;

/// `<str as Debug>::fmt`, by way of `format!`: the text in quotes, characters
/// that would be hard to read escaped.
#[verifier::external_body]
pub(crate) fn debug_text(s: &str) -> (r: String)
    ensures
        r@ == debug_form(s@),
{
    format!("{:?}", s)
}

/// Whether two byte strings are the same.
pub fn same_bytes(a: &[u8], b: &[u8]) -> (r: bool)
    ensures
        r == (a@ == b@),
{
    if a.len() != b.len() {
        return false;
    }
    let mut i: usize = 0;
    while i < a.len()
        invariant
            a@.len() == b@.len(),
            i <= a@.len(),
            forall|j: int| 0 <= j < i ==> a@[j] == b@[j],
        decreases a.len() - i,
    {
        if a[i] != b[i] {
            assert(a@[i as int] != b@[i as int]);
            return false;
        }
        i += 1;
    }
    assert(a@ =~= b@);
    true
}

// ----- White space -----------------------------------------------------

/// What `char::is_whitespace` answers.
pub uninterp spec fn is_space(c: char) -> bool;

/// `char::is_whitespace`: whether the character has the Unicode property
/// `White_Space`. Among the ASCII characters those are the space and the
/// characters from tab to carriage return.
pub assume_specification[ char::is_whitespace ](c: char) -> (r: bool)
    ensures
        r == is_space(c),
        (c as u32) < 128 ==> r == (c == ' ' || ('\t' <= c && c <= '\r')),
;

/// `s` without white space at its beginning.
pub open spec fn trim_start(s: Seq<char>) -> Seq<char>
    decreases s.len(),
{
    if s.len() > 0 && is_space(s[0]) {
        trim_start(s.skip(1))
    } else {
        s
    }
}

/// `s` without white space at its end.
pub open spec fn trim_end(s: Seq<char>) -> Seq<char>
    decreases s.len(),
{
    if s.len() > 0 && is_space(s.last()) {
        trim_end(s.drop_last())
    } else {
        s
    }
}

/// `s` without white space around it.
pub open spec fn trim(s: Seq<char>) -> Seq<char> {
    trim_end(trim_start(s))
}

/// The index of the first character of `v`, from `from` on, that is not white
/// space.
fn skip_space(v: &Vec<char>, from: usize) -> (r: usize)
    requires
        from <= v@.len(),
    ensures
        from <= r <= v@.len(),
        trim_start(v@.skip(from as int)) == v@.skip(r as int),
        r < v@.len() ==> !is_space(v@[r as int]),
{
    let mut i: usize = from;
    while i < v.len() && v[i].is_whitespace()
        invariant
            from <= i <= v@.len(),
            trim_start(v@.skip(from as int)) == trim_start(v@.skip(i as int)),
        ensures
            from <= i <= v@.len(),
            trim_start(v@.skip(from as int)) == trim_start(v@.skip(i as int)),
            i < v@.len() ==> !is_space(v@[i as int]),
        decreases v.len() - i,
    {
        assert(v@.skip(i as int).skip(1) =~= v@.skip(i + 1));
        assert(v@.skip(i as int)[0] == v@[i as int]);
        i += 1;
    }
    proof {
        if i < v@.len() {
            assert(v@.skip(i as int)[0] == v@[i as int]);
        }
    }
    i
}

/// `s` without white space around it.
pub fn trimmed(s: &str) -> (r: String)
    ensures
        r@ == trim(s@),
{
    let v = chars_of(s);
    let start: usize = skip_space(&v, 0);
    let mut end: usize = v.len();
    assert(v@.skip(0) =~= v@);
    let ghost body = v@.skip(start as int);
    assert(body =~= v@.subrange(start as int, end as int));
    while start < end && v[end - 1].is_whitespace()
        invariant
            start <= end <= v@.len(),
            trim_end(body) == trim_end(v@.subrange(start as int, end as int)),
        ensures
            start <= end <= v@.len(),
            trim_end(body) == trim_end(v@.subrange(start as int, end as int)),
            start < end ==> !is_space(v@[end - 1]),
        decreases end - start,
    {
        let ghost part = v@.subrange(start as int, end as int);
        assert(part.drop_last() =~= v@.subrange(start as int, end - 1));
        assert(part.last() == v@[end - 1]);
        end -= 1;
    }
    proof {
        let part = v@.subrange(start as int, end as int);
        if start < end {
            assert(part.last() == v@[end - 1]);
        }
    }
    string_of(&v, start, end)
}

/// The length of the word that `s` begins with.
pub open spec fn word_length(s: Seq<char>) -> nat
    decreases s.len(),
{
    if s.len() > 0 && !is_space(s[0]) {
        1 + word_length(s.skip(1))
    } else {
        0
    }
}

/// Lemma: a word is no longer than the text it begins, and trimming does not
/// make a text longer.
pub proof fn lemma_word_length(s: Seq<char>)
    ensures
        word_length(s) <= s.len(),
        trim_start(s).len() <= s.len(),
        trim_start(s).len() > 0 ==> !is_space(trim_start(s)[0]),
    decreases s.len(),
{
    if s.len() > 0 {
        lemma_word_length(s.skip(1));
    }
}

/// The words of `s`: its longest stretches without white space, in order.
pub open spec fn words(s: Seq<char>) -> Seq<Seq<char>>
    decreases s.len(),
{
    let t = trim_start(s);
    if t.len() == 0 {
        Seq::empty()
    } else {
        proof {
            lemma_word_length(s);
            lemma_word_length(t);
        }
        seq![t.take(word_length(t) as int)] + words(t.skip(word_length(t) as int))
    }
}

/// The index at which the word that begins at `from` ends.
fn word_end(v: &Vec<char>, from: usize) -> (r: usize)
    requires
        from <= v@.len(),
    ensures
        from <= r <= v@.len(),
        r - from == word_length(v@.skip(from as int)),
{
    let mut i: usize = from;
    while i < v.len() && !v[i].is_whitespace()
        invariant
            from <= i <= v@.len(),
            word_length(v@.skip(from as int)) == i - from + word_length(v@.skip(i as int)),
        ensures
            from <= i <= v@.len(),
            word_length(v@.skip(from as int)) == i - from + word_length(v@.skip(i as int)),
            i < v@.len() ==> is_space(v@[i as int]),
        decreases v.len() - i,
    {
        assert(v@.skip(i as int).skip(1) =~= v@.skip(i + 1));
        assert(v@.skip(i as int)[0] == v@[i as int]);
        i += 1;
    }
    proof {
        if i < v@.len() {
            assert(v@.skip(i as int)[0] == v@[i as int]);
        }
    }
    i
}

/// The words of `s`, in order.
pub fn split_words(s: &str) -> (r: Vec<String>)
    ensures
        git_step::texts(r@) == words(s@),
{
    let v = chars_of(s);
    let mut out: Vec<String> = Vec::new();
    let mut at: usize = 0;
    assert(v@.skip(0) =~= v@);
    assert(git_step::texts(out@) + words(v@.skip(0)) =~= words(s@));
    loop
        invariant_except_break
            v@ == s@,
            at <= v@.len(),
            git_step::texts(out@) + words(v@.skip(at as int)) == words(s@),
        ensures
            git_step::texts(out@) == words(s@),
        decreases v@.len() - at,
    {
        let ghost before = git_step::texts(out@);
        let ghost rest = v@.skip(at as int);
        let start: usize = skip_space(&v, at);
        if start == v.len() {
            assert(trim_start(rest).len() == 0);
            assert(before + Seq::<Seq<char>>::empty() =~= before);
            break;
        }
        let end: usize = word_end(&v, start);
        proof {
            let t = trim_start(rest);
            assert(t == v@.skip(start as int));
            assert(t[0] == v@[start as int]);
            assert(word_length(t) == end - start);
            assert(word_length(t) >= 1);
            assert(t.take(end - start) =~= v@.subrange(start as int, end as int));
            assert(t.skip(end - start) =~= v@.skip(end as int));
        }
        out.push(string_of(&v, start, end));
        assert(git_step::texts(out@) =~= before.push(v@.subrange(start as int, end as int)));
        assert(git_step::texts(out@) + words(v@.skip(end as int)) =~= before + (seq![
            v@.subrange(start as int, end as int),
        ] + words(v@.skip(end as int))));
        at = end;
    }
    out
}

// ----- Lines -----------------------------------------------------------

/// The length of the line that `s` begins with.
pub open spec fn line_length(s: Seq<char>) -> nat
    decreases s.len(),
{
    if s.len() > 0 && s[0] != '\n' {
        1 + line_length(s.skip(1))
    } else {
        0
    }
}

/// Lemma: a line is no longer than the text it begins.
pub proof fn lemma_line_length(s: Seq<char>)
    ensures
        line_length(s) <= s.len(),
    decreases s.len(),
{
    if s.len() > 0 {
        lemma_line_length(s.skip(1));
    }
}

/// A line without the carriage return before its line feed.
pub open spec fn without_return(line: Seq<char>) -> Seq<char> {
    if line.len() > 0 && line.last() == '\r' {
        line.drop_last()
    } else {
        line
    }
}

/// The lines of `s`, without their line feeds and a carriage return before
/// them; a line feed at the end begins no further line.
pub open spec fn lines(s: Seq<char>) -> Seq<Seq<char>>
    decreases s.len(),
{
    if s.len() == 0 {
        Seq::empty()
    } else {
        let n = line_length(s);
        proof {
            lemma_line_length(s);
        }
        if n + 1 <= s.len() {
            seq![without_return(s.take(n as int))] + lines(s.skip(n as int + 1))
        } else {
            seq![s]
        }
    }
}

/// The index at which the line that begins at `from` ends.
fn line_end(v: &Vec<char>, from: usize) -> (r: usize)
    requires
        from <= v@.len(),
    ensures
        from <= r <= v@.len(),
        r - from == line_length(v@.skip(from as int)),
{
    let mut i: usize = from;
    while i < v.len() && v[i] != '\n'
        invariant
            from <= i <= v@.len(),
            line_length(v@.skip(from as int)) == i - from + line_length(v@.skip(i as int)),
        ensures
            from <= i <= v@.len(),
            line_length(v@.skip(from as int)) == i - from + line_length(v@.skip(i as int)),
            i < v@.len() ==> v@[i as int] == '\n',
        decreases v.len() - i,
    {
        assert(v@.skip(i as int).skip(1) =~= v@.skip(i + 1));
        assert(v@.skip(i as int)[0] == v@[i as int]);
        i += 1;
    }
    proof {
        if i < v@.len() {
            assert(v@.skip(i as int)[0] == v@[i as int]);
        }
    }
    i
}

/// The lines of `s`, in order.
pub fn split_lines(s: &str) -> (r: Vec<String>)
    ensures
        git_step::texts(r@) == lines(s@),
{
    let v = chars_of(s);
    let count: usize = v.len();
    let mut out: Vec<String> = Vec::new();
    let mut at: usize = 0;
    assert(v@.skip(0) =~= v@);
    assert(git_step::texts(out@) + lines(v@.skip(0)) =~= lines(s@));
    while at < count
        invariant
            v@ == s@,
            count == v@.len(),
            at <= count,
            git_step::texts(out@) + lines(v@.skip(at as int)) == lines(s@),
        decreases count - at,
    {
        let ghost before = git_step::texts(out@);
        let ghost rest = v@.skip(at as int);
        let end: usize = line_end(&v, at);
        let ghost whole = v@.subrange(at as int, end as int);
        assert(rest.take(end - at) =~= whole);
        let cut: bool = end < count && end > at && v[end - 1] == '\r';
        let stop: usize = if cut {
            end - 1
        } else {
            end
        };
        out.push(string_of(&v, at, stop));
        let ghost line = v@.subrange(at as int, stop as int);
        assert(git_step::texts(out@) =~= before.push(line));
        if end < count {
            assert(line =~= without_return(whole));
            assert(rest.skip(end - at + 1) =~= v@.skip(end + 1));
            assert(git_step::texts(out@) + lines(v@.skip(end + 1)) =~= before + (seq![line] + lines(
                v@.skip(end + 1),
            )));
            at = end + 1;
        } else {
            assert(rest =~= line);
            assert(v@.skip(count as int) =~= Seq::<char>::empty());
            assert(git_step::texts(out@) + lines(v@.skip(count as int)) =~= before + seq![line]);
            at = count;
        }
    }
    assert(v@.skip(at as int) =~= Seq::<char>::empty());
    assert(git_step::texts(out@) + lines(v@.skip(at as int)) =~= git_step::texts(out@));
    out
}

/// What a failed command said: the first line that it printed as an error,
/// after the name of the command.
pub open spec fn command_error_text(name: Seq<char>, stderr: Seq<u8>) -> Seq<char> {
    let said = lines(lossy_text(stderr));
    name + ": "@ + (if said.len() == 0 {
        "unknown error"@
    } else {
        trim(said[0])
    })
}

/// What a failed command said.
pub fn command_error(name: &str, stderr: &Vec<u8>) -> (r: String)
    ensures
        r@ == command_error_text(name@, stderr@),
{
    let printed = lossy(stderr.as_slice());
    let said = split_lines(printed.as_str());
    assert(git_step::texts(said@).len() == said@.len());
    let first = if said.len() == 0 {
        copy_of("unknown error")
    } else {
        assert(git_step::texts(said@)[0] == said@[0]@);
        trimmed(said[0].as_str())
    };
    text::join3(name, ": ", first.as_str())
}

// ----- Numbers ---------------------------------------------------------

/// Every character of `s` is a decimal digit.
pub open spec fn all_digits(s: Seq<char>) -> bool {
    forall|i: int| 0 <= i < s.len() ==> '0' <= #[trigger] s[i] && s[i] <= '9'
}

/// The number that a text of digits stands for.
pub open spec fn digits_value(s: Seq<char>) -> nat
    decreases s.len(),
{
    if s.len() == 0 {
        0
    } else {
        (digits_value(s.drop_last()) * 10 + (s.last() as int - '0' as int)) as nat
    }
}

/// The digits of a number: what follows a plus sign, if there is one.
pub open spec fn number_digits(s: Seq<char>) -> Seq<char> {
    if s.len() > 0 && s[0] == '+' {
        s.skip(1)
    } else {
        s
    }
}

/// The number that `s` stands for: digits, a plus sign before them allowed,
/// with a value of at most 64 bits.
pub open spec fn parsed_number(s: Seq<char>) -> Option<u64> {
    let d = number_digits(s);
    if d.len() > 0 && all_digits(d) && digits_value(d) <= u64::MAX {
        Some(digits_value(d) as u64)
    } else {
        None
    }
}

/// Lemma: the value of a text of digits is at least that of its beginning.
proof fn lemma_value_grows(s: Seq<char>, i: int)
    requires
        0 <= i <= s.len(),
        all_digits(s),
    ensures
        digits_value(s.take(i)) <= digits_value(s),
    decreases s.len() - i,
{
    if i < s.len() {
        lemma_value_grows(s, i + 1);
        assert(s.take(i + 1).drop_last() =~= s.take(i));
        assert(s.take(i + 1).last() == s[i]);
    } else {
        assert(s.take(i) =~= s);
    }
}

/// The number that `s` stands for.
pub fn parse_number(s: &str) -> (r: Option<u64>)
    ensures
        r == parsed_number(s@),
{
    let v = chars_of(s);
    let from: usize = if v.len() > 0 && v[0] == '+' {
        1
    } else {
        0
    };
    let ghost d = number_digits(s@);
    assert(d =~= v@.skip(from as int));
    if from == v.len() {
        return None;
    }
    let mut i: usize = from;
    while i < v.len()
        invariant
            v@ == s@,
            from <= i <= v@.len(),
            d == v@.skip(from as int),
            d == number_digits(s@),
            forall|j: int| 0 <= j < i - from ==> '0' <= #[trigger] d[j] && d[j] <= '9',
        decreases v.len() - i,
    {
        assert(d[i - from] == v@[i as int]);
        if v[i] < '0' || '9' < v[i] {
            assert(!all_digits(d));
            return None;
        }
        i += 1;
    }
    assert(all_digits(d));
    let mut total: u64 = 0;
    let mut k: usize = from;
    while k < v.len()
        invariant
            v@ == s@,
            from <= k <= v@.len(),
            d == v@.skip(from as int),
            d == number_digits(s@),
            d.len() > 0,
            all_digits(d),
            total == digits_value(d.take(k - from)),
        decreases v.len() - k,
    {
        assert(d[k - from] == v@[k as int]);
        let digit: u64 = (v[k] as u8 - 48) as u64;
        proof {
            assert(d.take(k - from + 1).drop_last() =~= d.take(k - from));
            assert(d.take(k - from + 1).last() == d[k - from]);
            lemma_value_grows(d, k - from + 1);
        }
        if total > (u64::MAX - digit) / 10 {
            assert(digits_value(d) > u64::MAX);
            return None;
        }
        total = total * 10 + digit;
        k += 1;
    }
    assert(d.take(k - from) =~= d);
    Some(total)
}

// ----- Fields that a zero byte ends ------------------------------------

/// `bytes[a..b]` is a field: it has no zero byte, and lies between two of
/// them, or the ends.
pub open spec fn is_field(bytes: Seq<u8>, a: int, b: int) -> bool {
    &&& 0 <= a <= b <= bytes.len()
    &&& a == 0 || bytes[a - 1] == 0
    &&& b == bytes.len() || bytes[b] == 0
    &&& forall|i: int| a <= i < b ==> #[trigger] bytes[i] != 0
}

/// Some field of `bytes` is neither empty nor `path`.
pub open spec fn has_other_path(bytes: Seq<u8>, path: Seq<u8>) -> bool {
    exists|a: int, b: int|
        is_field(bytes, a, b) && a < b && #[trigger] bytes.subrange(a, b) != path
}

/// Some field of `bytes` is `path`.
pub open spec fn has_path(bytes: Seq<u8>, path: Seq<u8>) -> bool {
    exists|a: int, b: int|
        is_field(bytes, a, b) && a < b && #[trigger] bytes.subrange(a, b) == path
}

/// The predicate "is not zero".
pub open spec fn nonzero() -> spec_fn(u8) -> bool {
    |b: u8| b != 0
}

/// The predicate "is zero".
pub open spec fn zero() -> spec_fn(u8) -> bool {
    |b: u8| b == 0
}

/// The first field that is not empty.
pub open spec fn first_record(bytes: Seq<u8>) -> Option<Seq<u8>> {
    match text::first_from(bytes, nonzero(), 0) {
        None => None,
        Some(a) => match text::first_from(bytes, zero(), a) {
            Some(b) => Some(bytes.subrange(a, b)),
            None => Some(bytes.subrange(a, bytes.len() as int)),
        },
    }
}

/// Where the field that begins at `from` ends.
fn field_end(bytes: &[u8], from: usize) -> (r: usize)
    requires
        from <= bytes@.len(),
    ensures
        from <= r <= bytes@.len(),
        forall|i: int| from <= i < r ==> #[trigger] bytes@[i] != 0,
        r < bytes@.len() ==> bytes@[r as int] == 0,
{
    let mut i: usize = from;
    while i < bytes.len() && bytes[i] != 0
        invariant
            from <= i <= bytes@.len(),
            forall|k: int| from <= k < i ==> #[trigger] bytes@[k] != 0,
        ensures
            from <= i <= bytes@.len(),
            forall|k: int| from <= k < i ==> #[trigger] bytes@[k] != 0,
            i < bytes@.len() ==> bytes@[i as int] == 0,
        decreases bytes.len() - i,
    {
        i += 1;
    }
    i
}

/// A copy of `bytes[from..to]`.
fn copy_bytes(bytes: &[u8], from: usize, to: usize) -> (r: Vec<u8>)
    requires
        from <= to <= bytes@.len(),
    ensures
        r@ == bytes@.subrange(from as int, to as int),
{
    let mut out: Vec<u8> = Vec::new();
    let mut i: usize = from;
    while i < to
        invariant
            from <= i <= to <= bytes@.len(),
            out@ == bytes@.subrange(from as int, i as int),
        decreases to - i,
    {
        out.push(bytes[i]);
        i += 1;
    }
    out
}

/// Lemma: a field that begins where another does ends where that does, and
/// none begins within it.
proof fn lemma_field_from(bytes: Seq<u8>, a: int, b: int, x: int, y: int)
    requires
        is_field(bytes, a, b),
        is_field(bytes, x, y),
        a <= x <= b,
        x < y,
    ensures
        x == a,
        y == b,
{
    if x > a {
        assert(bytes[x - 1] != 0);
    }
    if y < b {
        assert(bytes[y] != 0);
    } else if b < y {
        assert(bytes[b] != 0);
    }
}

/// Whether some field is neither empty nor `path`.
pub fn any_other_path(bytes: &[u8], path: &[u8]) -> (r: bool)
    ensures
        r == has_other_path(bytes@, path@),
{
    let count: usize = bytes.len();
    let mut a: usize = 0;
    loop
        invariant
            count == bytes@.len(),
            a <= count,
            a == 0 || bytes@[a - 1] == 0,
            forall|x: int, y: int|
                x < a && is_field(bytes@, x, y) && x < y ==> #[trigger] bytes@.subrange(x, y)
                    == path@,
        decreases count - a,
    {
        let b: usize = field_end(bytes, a);
        assert(is_field(bytes@, a as int, b as int));
        assert forall|x: int, y: int|
            a <= x <= b && is_field(bytes@, x, y) && x < y implies x == a && y == b by {
            lemma_field_from(bytes@, a as int, b as int, x, y);
        }
        if a < b {
            let field = copy_bytes(bytes, a, b);
            if !same_bytes(field.as_slice(), path) {
                assert(bytes@.subrange(a as int, b as int) != path@);
                return true;
            }
        }
        if b == count {
            assert forall|x: int, y: int| is_field(bytes@, x, y) && x < y implies
                #[trigger] bytes@.subrange(x, y) == path@ by {
                if x < a {
                } else {
                    assert(x == a && y == b);
                }
            }
            return false;
        }
        assert forall|x: int, y: int| x < b + 1 && is_field(bytes@, x, y) && x < y implies
            #[trigger] bytes@.subrange(x, y) == path@ by {
            if x < a {
            } else {
                assert(x == a && y == b);
            }
        }
        a = b + 1;
    }
}

/// Whether some field is `path`.
pub fn any_path(bytes: &[u8], path: &[u8]) -> (r: bool)
    ensures
        r == has_path(bytes@, path@),
{
    let count: usize = bytes.len();
    let mut a: usize = 0;
    loop
        invariant
            count == bytes@.len(),
            a <= count,
            a == 0 || bytes@[a - 1] == 0,
            forall|x: int, y: int|
                x < a && is_field(bytes@, x, y) && x < y ==> #[trigger] bytes@.subrange(x, y)
                    != path@,
        decreases count - a,
    {
        let b: usize = field_end(bytes, a);
        assert(is_field(bytes@, a as int, b as int));
        assert forall|x: int, y: int|
            a <= x <= b && is_field(bytes@, x, y) && x < y implies x == a && y == b by {
            lemma_field_from(bytes@, a as int, b as int, x, y);
        }
        if a < b {
            let field = copy_bytes(bytes, a, b);
            if same_bytes(field.as_slice(), path) {
                assert(bytes@.subrange(a as int, b as int) == path@);
                return true;
            }
        }
        assert forall|x: int, y: int| x < b + 1 && is_field(bytes@, x, y) && x < y implies
            #[trigger] bytes@.subrange(x, y) != path@ by {
            if x < a {
            } else {
                assert(x == a && y == b);
            }
        }
        if b == count {
            assert forall|x: int, y: int| is_field(bytes@, x, y) && x < y implies
                #[trigger] bytes@.subrange(x, y) != path@ by {
                assert(x < b + 1);
            }
            return false;
        }
        a = b + 1;
    }
}

/// The first field that is not empty.
pub fn find_record(bytes: &[u8]) -> (r: Option<Vec<u8>>)
    ensures
        match r {
            Some(v) => first_record(bytes@) == Some(v@),
            None => first_record(bytes@) is None,
        },
{
    let ghost p = nonzero();
    let mut a: usize = 0;
    while a < bytes.len()
        invariant
            p == nonzero(),
            a <= bytes@.len(),
            forall|j: int| 0 <= j < a ==> !p(#[trigger] bytes@[j]),
        decreases bytes.len() - a,
    {
        if bytes[a] != 0 {
            let b: usize = field_end(bytes, a);
            proof {
                text::lemma_first_from_is(bytes@, p, 0, a as int);
                if b < bytes@.len() {
                    text::lemma_first_from_is(bytes@, zero(), a as int, b as int);
                } else {
                    text::lemma_first_from_none(bytes@, zero(), a as int);
                }
            }
            return Some(copy_bytes(bytes, a, b));
        }
        a += 1;
    }
    proof {
        text::lemma_first_from_none(bytes@, p, 0);
    }
    None
}

/// The predicate "is a tab".
pub open spec fn tab() -> spec_fn(char) -> bool {
    |c: char| c == '\t'
}

/// What stands before and after the first tab of `s`.
pub open spec fn around_tab(s: Seq<char>) -> Option<(Seq<char>, Seq<char>)> {
    match text::first_from(s, tab(), 0) {
        Some(i) => Some((s.take(i), s.skip(i + 1))),
        None => None,
    }
}

/// What stands before and after the first tab of `s`.
pub fn split_tab(s: &str) -> (r: Option<(String, String)>)
    ensures
        match r {
            Some((a, b)) => around_tab(s@) == Some((a@, b@)),
            None => around_tab(s@) is None,
        },
{
    let v = chars_of(s);
    let count: usize = v.len();
    let ghost p = tab();
    let mut i: usize = 0;
    while i < count
        invariant
            v@ == s@,
            count == v@.len(),
            p == tab(),
            i <= count,
            forall|j: int| 0 <= j < i ==> !p(#[trigger] v@[j]),
        decreases count - i,
    {
        if v[i] == '\t' {
            proof {
                text::lemma_first_from_is(v@, p, 0, i as int);
                assert(v@.subrange(0, i as int) =~= s@.take(i as int));
                assert(v@.subrange(i + 1, count as int) =~= s@.skip(i + 1));
            }
            return Some((string_of(&v, 0, i), string_of(&v, i + 1, count)));
        }
        i += 1;
    }
    proof {
        text::lemma_first_from_none(v@, p, 0);
    }
    None
}

// ----- Paths -----------------------------------------------------------

/// The path begins at the root.
pub open spec fn absolute(path: Seq<char>) -> bool {
    path.len() > 0 && path[0] == '/'
}

/// `path` taken from the directory `base`.
pub open spec fn joined_path(base: Seq<char>, path: Seq<char>) -> Seq<char> {
    if absolute(path) || base.len() == 0 {
        path
    } else if base.last() == '/' {
        base + path
    } else {
        base + "/"@ + path
    }
}

/// `path` taken from the directory `base`.
pub fn join_path(base: &str, path: &str) -> (r: String)
    ensures
        r@ == joined_path(base@, path@),
{
    let b = chars_of(base);
    let p = chars_of(path);
    if (p.len() > 0 && p[0] == '/') || b.len() == 0 {
        copy_of(path)
    } else if b[b.len() - 1] == '/' {
        text::join2(base, path)
    } else {
        text::join3(base, "/", path)
    }
}

} // verus!
