//! Text: strings as sequences of characters, searching, decimal numbers, and
//! the first or last element of a sequence that satisfies a predicate.

use std::collections::hash_map::DefaultHasher;
use std::hash::Hasher;

use vstd::prelude::*;
use vstd::std_specs::hash::DefaultHasherAdditionalSpecFns;

verus! {

// ----- First and last element satisfying a predicate -------------------

/// `i` is the lowest index, from `from` on, at which `p` holds.
pub open spec fn is_first_from<A>(s: Seq<A>, p: spec_fn(A) -> bool, from: int, i: int) -> bool {
    &&& from <= i < s.len()
    &&& p(s[i])
    &&& forall|j: int| from <= j < i ==> !p(#[trigger] s[j])
}

/// The lowest index, from `from` on, at which `p` holds; `None` if there is
/// none.
pub open spec fn first_from<A>(s: Seq<A>, p: spec_fn(A) -> bool, from: int) -> Option<int> {
    if exists|i: int| is_first_from(s, p, from, i) {
        Some(choose|i: int| is_first_from(s, p, from, i))
    } else {
        None
    }
}

/// `i` is the highest index below `end` at which `p` holds.
pub open spec fn is_last_before<A>(s: Seq<A>, p: spec_fn(A) -> bool, end: int, i: int) -> bool {
    &&& 0 <= i < end
    &&& p(s[i])
    &&& forall|j: int| i < j < end ==> !p(#[trigger] s[j])
}

/// The highest index below `end` at which `p` holds; `None` if there is none.
pub open spec fn last_before<A>(s: Seq<A>, p: spec_fn(A) -> bool, end: int) -> Option<int> {
    if exists|i: int| is_last_before(s, p, end, i) {
        Some(choose|i: int| is_last_before(s, p, end, i))
    } else {
        None
    }
}

/// An index computed as a machine number, as a mathematical one.
pub open spec fn as_index(o: Option<usize>) -> Option<int> {
    match o {
        Some(i) => Some(i as int),
        None => None,
    }
}

/// A first index that is known is the one `first_from` names.
pub proof fn lemma_first_from_is<A>(s: Seq<A>, p: spec_fn(A) -> bool, from: int, i: int)
    requires
        0 <= from,
        is_first_from(s, p, from, i),
    ensures
        first_from(s, p, from) == Some(i),
{
    let c = choose|k: int| is_first_from(s, p, from, k);
    assert(is_first_from(s, p, from, c));
    if c < i {
        assert(!p(s[c]));
    } else if i < c {
        assert(!p(s[i]));
    }
}

/// Where `p` holds nowhere from `from` on, `first_from` is `None`.
pub proof fn lemma_first_from_none<A>(s: Seq<A>, p: spec_fn(A) -> bool, from: int)
    requires
        forall|j: int| from <= j < s.len() ==> !p(#[trigger] s[j]),
    ensures
        first_from(s, p, from) is None,
{
    if exists|i: int| is_first_from(s, p, from, i) {
        let c = choose|k: int| is_first_from(s, p, from, k);
        assert(!p(s[c]));
    }
}

/// What `first_from` says about the sequence it searched.
pub proof fn lemma_first_from<A>(s: Seq<A>, p: spec_fn(A) -> bool, from: int)
    requires
        0 <= from,
    ensures
        first_from(s, p, from) matches Some(i) ==> is_first_from(s, p, from, i),
        first_from(s, p, from) is None ==> forall|j: int|
            from <= j < s.len() ==> !p(#[trigger] s[j]),
{
    if first_from(s, p, from) is None {
        assert forall|j: int| from <= j < s.len() implies !p(#[trigger] s[j]) by {
            if p(s[j]) {
                lemma_first_exists(s, p, from, j);
            }
        }
    }
}

/// Where `p` holds somewhere from `from` on, it holds at some first index.
pub proof fn lemma_first_exists<A>(s: Seq<A>, p: spec_fn(A) -> bool, from: int, j: int)
    requires
        0 <= from <= j < s.len(),
        p(s[j]),
    ensures
        exists|i: int| is_first_from(s, p, from, i),
    decreases j - from,
{
    if p(s[from]) {
        assert(is_first_from(s, p, from, from));
    } else {
        let next = from + 1;
        lemma_first_exists(s, p, next, j);
        let i = choose|i: int| is_first_from(s, p, next, i);
        assert(is_first_from(s, p, from, i));
    }
}

/// A last index that is known is the one `last_before` names.
pub proof fn lemma_last_before_is<A>(s: Seq<A>, p: spec_fn(A) -> bool, end: int, i: int)
    requires
        is_last_before(s, p, end, i),
    ensures
        last_before(s, p, end) == Some(i),
{
    let c = choose|k: int| is_last_before(s, p, end, k);
    assert(is_last_before(s, p, end, c));
    if c < i {
        assert(!p(s[i]));
    } else if i < c {
        assert(!p(s[c]));
    }
}

/// Where `p` holds nowhere below `end`, `last_before` is `None`.
pub proof fn lemma_last_before_none<A>(s: Seq<A>, p: spec_fn(A) -> bool, end: int)
    requires
        forall|j: int| 0 <= j < end ==> !p(#[trigger] s[j]),
    ensures
        last_before(s, p, end) is None,
{
    if exists|i: int| is_last_before(s, p, end, i) {
        let c = choose|k: int| is_last_before(s, p, end, k);
        assert(!p(s[c]));
    }
}

/// What `last_before` says about the sequence it searched.
pub proof fn lemma_last_before<A>(s: Seq<A>, p: spec_fn(A) -> bool, end: int)
    requires
        end <= s.len(),
    ensures
        last_before(s, p, end) matches Some(i) ==> is_last_before(s, p, end, i),
        last_before(s, p, end) is None ==> forall|j: int| 0 <= j < end ==> !p(#[trigger] s[j]),
{
    if last_before(s, p, end) is None {
        assert forall|j: int| 0 <= j < end implies !p(#[trigger] s[j]) by {
            if p(s[j]) {
                lemma_last_exists(s, p, end, j);
            }
        }
    }
}

/// Where `p` holds somewhere below `end`, it holds at some last index.
pub proof fn lemma_last_exists<A>(s: Seq<A>, p: spec_fn(A) -> bool, end: int, j: int)
    requires
        0 <= j < end <= s.len(),
        p(s[j]),
    ensures
        exists|i: int| is_last_before(s, p, end, i),
    decreases end - j,
{
    let last = end - 1;
    if p(s[last]) {
        assert(is_last_before(s, p, end, last));
    } else {
        lemma_last_exists(s, p, last, j);
        let i = choose|i: int| is_last_before(s, p, last, i);
        assert(is_last_before(s, p, end, i));
    }
}

// ----- Strings and characters ------------------------------------------

/// `String::push` appends the given character.
pub assume_specification[ std::string::String::push ](s: &mut String, c: char)
    ensures
        final(s)@ == old(s)@.push(c),
;

/// `String::pop` removes the last character and returns it, or returns `None`
/// and leaves the string alone when it is empty.
pub assume_specification[ std::string::String::pop ](s: &mut String) -> (r: Option<char>)
    ensures
        old(s)@.len() == 0 ==> r is None && final(s)@ == old(s)@,
        old(s)@.len() > 0 ==> r == Some(old(s)@.last()) && final(s)@ == old(s)@.drop_last(),
;

/// The characters of `s`, in order.
pub fn chars_of(s: &str) -> (v: Vec<char>)
    ensures
        v@ == s@,
{
    let mut v: Vec<char> = Vec::new();
    for c in it: s.chars()
        invariant
            v@ == it.seq().take(it.index()),
            it.seq() == s@,
    {
        v.push(c);
    }
    v
}

/// The string made of the characters `v[from..to]`.
pub fn string_of(v: &Vec<char>, from: usize, to: usize) -> (s: String)
    requires
        from <= to <= v@.len(),
    ensures
        s@ == v@.subrange(from as int, to as int),
{
    let mut s = String::new();
    let mut i: usize = from;
    while i < to
        invariant
            from <= i <= to <= v@.len(),
            s@ == v@.subrange(from as int, i as int),
        decreases to - i,
    {
        s.push(v[i]);
        i += 1;
    }
    s
}

/// A copy of a borrowed text.
pub fn copy_of(s: &str) -> (r: String)
    ensures
        r@ == s@,
{
    s.to_owned()
}

/// `a` followed by `b`.
pub fn join2(a: &str, b: &str) -> (r: String)
    ensures
        r@ == a@ + b@,
{
    a.to_owned().concat(b)
}

/// `a`, `b` and `c` in a row.
pub fn join3(a: &str, b: &str, c: &str) -> (r: String)
    ensures
        r@ == a@ + b@ + c@,
{
    a.to_owned().concat(b).concat(c)
}

/// Whether two texts are the same, character by character.
pub fn same_text(a: &str, b: &str) -> (r: bool)
    ensures
        r == (a@ == b@),
{
    let x = chars_of(a);
    let y = chars_of(b);
    if x.len() != y.len() {
        return false;
    }
    let mut i: usize = 0;
    while i < x.len()
        invariant
            x@ == a@,
            y@ == b@,
            x@.len() == y@.len(),
            i <= x@.len(),
            forall|j: int| 0 <= j < i ==> x@[j] == y@[j],
        decreases x.len() - i,
    {
        if x[i] != y[i] {
            assert(a@[i as int] != b@[i as int]);
            return false;
        }
        i += 1;
    }
    assert(a@ =~= b@);
    true
}

// ----- Decimal numbers -------------------------------------------------

/// The character for a digit below ten.
pub open spec fn digit_char(d: nat) -> char {
    ('0' as int + d) as char
}

/// `n` in decimal, without leading zeros.
pub open spec fn decimal(n: nat) -> Seq<char>
    decreases n,
{
    if n < 10 {
        seq![digit_char(n)]
    } else {
        decimal(n / 10).push(digit_char(n % 10))
    }
}

/// Writes `n` in decimal.
pub fn decimal_text(n: u128) -> (r: String)
    ensures
        r@ == decimal(n as nat),
    decreases n,
{
    let digit: u8 = (n % 10) as u8;
    let c: char = (48u8 + digit) as char;
    if n < 10 {
        let mut r = String::new();
        r.push(c);
        assert(r@ =~= seq![digit_char(n as nat)]);
        r
    } else {
        let mut r = decimal_text(n / 10);
        r.push(c);
        r
    }
}

// ----- Searching -------------------------------------------------------

/// `needle` occurs in `hay` starting at index `at`.
pub open spec fn occurs_at(hay: Seq<char>, needle: Seq<char>, at: int) -> bool {
    &&& 0 <= at
    &&& at + needle.len() <= hay.len()
    &&& hay.subrange(at, at + needle.len()) == needle
}

/// `needle` occurs somewhere in `hay`.
pub open spec fn contains_text(hay: Seq<char>, needle: Seq<char>) -> bool {
    exists|at: int| occurs_at(hay, needle, at)
}

/// Whether `needle` occurs in `hay` at index `at`.
fn matches_at(hay: &Vec<char>, needle: &Vec<char>, at: usize) -> (r: bool)
    requires
        at + needle@.len() <= hay@.len(),
    ensures
        r == occurs_at(hay@, needle@, at as int),
{
    let total: usize = hay.len();
    let mut i: usize = 0;
    while i < needle.len()
        invariant
            total == hay@.len(),
            at + needle@.len() <= total,
            i <= needle@.len(),
            forall|j: int| 0 <= j < i ==> hay@[at + j] == needle@[j],
        decreases needle.len() - i,
    {
        if hay[at + i] != needle[i] {
            assert(hay@.subrange(at as int, at + needle@.len())[i as int] != needle@[i as int]);
            return false;
        }
        i += 1;
    }
    assert(hay@.subrange(at as int, at + needle@.len()) =~= needle@);
    true
}

/// Whether `needle` occurs in `hay`.
pub fn text_contains(hay: &str, needle: &str) -> (r: bool)
    ensures
        r == contains_text(hay@, needle@),
{
    let h = chars_of(hay);
    let n = chars_of(needle);
    if n.len() > h.len() {
        return false;
    }
    let mut at: usize = 0;
    let last: usize = h.len() - n.len();
    while at <= last
        invariant
            h@ == hay@,
            n@ == needle@,
            n@.len() <= h@.len(),
            last == h@.len() - n@.len(),
            at <= last + 1,
            forall|k: int| 0 <= k < at ==> !occurs_at(h@, n@, k),
        decreases last + 1 - at,
    {
        if matches_at(&h, &n, at) {
            return true;
        }
        if at == last {
            assert(forall|k: int| !occurs_at(h@, n@, k));
            return false;
        }
        at += 1;
    }
    false
}

/// What `char::is_uppercase` answers.
pub uninterp spec fn is_uppercase_char(c: char) -> bool;

/// `char::is_uppercase`: whether the character has the Unicode property
/// `Uppercase`. Among the ASCII characters those are the letters `A` to `Z`.
pub assume_specification[ char::is_uppercase ](c: char) -> (r: bool)
    ensures
        r == is_uppercase_char(c),
        (c as u32) < 128 ==> r == ('A' <= c && c <= 'Z'),
;

/// What `str::to_lowercase` returns.
pub uninterp spec fn lowercase(s: Seq<char>) -> Seq<char>;

/// The lower-case form of an ASCII letter; any other character unchanged.
pub open spec fn ascii_lower(c: char) -> char {
    if 'A' <= c && c <= 'Z' {
        (c as int + 32) as char
    } else {
        c
    }
}

/// The text begins with `start`.
pub open spec fn begins_with(whole: Seq<char>, start: Seq<char>) -> bool {
    start.len() <= whole.len() && whole.take(start.len() as int) == start
}

/// `str::to_lowercase`: the Unicode lower-case form of a text. The form that a
/// character gets depends on no more than the word it stands in (a capital
/// sigma gets another one at the end of a word), so what stands before a space
/// gets the form that it has alone. A text of ASCII characters only has each
/// letter replaced by its lower-case form.
pub assume_specification[ str::to_lowercase ](s: &str) -> (r: String)
    ensures
        r@ == lowercase(s@),
        forall|a: Seq<char>, b: Seq<char>| s@ == #[trigger] (a + " "@ + b)
            ==> begins_with(r@, lowercase(a)),
        (forall|i: int| 0 <= i < s@.len() ==> (#[trigger] s@[i] as u32) < 128)
            ==> r@ == s@.map_values(|c: char| ascii_lower(c)),
;

/// Some character of `s` is an upper-case one.
pub open spec fn has_uppercase(s: Seq<char>) -> bool {
    exists|i: int| 0 <= i < s.len() && is_uppercase_char(#[trigger] s[i])
}

/// Smart-case containment: a query with an upper-case letter matches exactly,
/// any other query matches the lower-case form of the text. An empty query
/// matches nothing.
pub open spec fn smart_case_match(hay: Seq<char>, query: Seq<char>) -> bool {
    &&& query.len() > 0
    &&& if has_uppercase(query) {
        contains_text(hay, query)
    } else {
        contains_text(lowercase(hay), query)
    }
}

/// Whether `s` has an upper-case character.
fn any_uppercase(s: &str) -> (r: bool)
    ensures
        r == has_uppercase(s@),
{
    let v = chars_of(s);
    let mut i: usize = 0;
    while i < v.len()
        invariant
            v@ == s@,
            i <= v@.len(),
            forall|j: int| 0 <= j < i ==> !is_uppercase_char(#[trigger] v@[j]),
        decreases v.len() - i,
    {
        if v[i].is_uppercase() {
            assert(is_uppercase_char(s@[i as int]));
            return true;
        }
        i += 1;
    }
    false
}

/// Lemma: what occurs at the beginning of a text occurs in the text.
proof fn lemma_contained_in_longer(whole: Seq<char>, start: Seq<char>, needle: Seq<char>)
    requires
        begins_with(whole, start),
        contains_text(start, needle),
    ensures
        contains_text(whole, needle),
{
    let at = choose|at: int| occurs_at(start, needle, at);
    assert(occurs_at(start, needle, at));
    assert(whole.take(start.len() as int).subrange(at, at + needle.len()) =~= whole.subrange(
        at,
        at + needle.len(),
    ));
    assert(occurs_at(whole, needle, at));
}

/// Smart-case containment of `query` in `haystack`. A query that is contained
/// in what stands before a space is contained in the whole. In a text of ASCII
/// characters, a query without an upper-case character is looked for among the
/// letters in lower case.
pub fn smart_case_contains(haystack: &str, query: &str) -> (r: bool)
    ensures
        r == smart_case_match(haystack@, query@),
        query@.len() > 0 && (forall|i: int|
            0 <= i < query@.len() ==> !is_uppercase_char(#[trigger] query@[i])) && (forall|i: int|
            0 <= i < haystack@.len() ==> (#[trigger] haystack@[i] as u32) < 128) ==> r
            == contains_text(haystack@.map_values(|c: char| ascii_lower(c)), query@),
        forall|a: Seq<char>, b: Seq<char>| haystack@ == #[trigger] (a + " "@ + b)
            && smart_case_match(a, query@) ==> r,
{
    if query.is_empty() {
        return false;
    }
    if any_uppercase(query) {
        proof {
            assert forall|a: Seq<char>, b: Seq<char>| haystack@ == #[trigger] (a + " "@ + b)
                && smart_case_match(a, query@) implies contains_text(haystack@, query@) by {
                assert(haystack@.take(a.len() as int) =~= a);
                lemma_contained_in_longer(haystack@, a, query@);
            }
        }
        text_contains(haystack, query)
    } else {
        let lowered = haystack.to_lowercase();
        proof {
            assert forall|a: Seq<char>, b: Seq<char>| haystack@ == #[trigger] (a + " "@ + b)
                && smart_case_match(a, query@) implies contains_text(lowered@, query@) by {
                lemma_contained_in_longer(lowered@, lowercase(a), query@);
            }
        }
        text_contains(&lowered, query)
    }
}

// ----- Links -----------------------------------------------------------

/// `s` begins with `prefix`, ASCII letters compared without regard to case.
pub open spec fn starts_with_ignoring_case(s: Seq<char>, prefix: Seq<char>) -> bool {
    &&& prefix.len() <= s.len()
    &&& forall|i: int| 0 <= i < prefix.len() ==> ascii_lower(#[trigger] s[i]) == prefix[i]
}

/// A link that may be opened: one with the scheme `http`, `https` or `mailto`,
/// in any case.
pub open spec fn safe_link(url: Seq<char>) -> bool {
    ||| starts_with_ignoring_case(url, "http://"@)
    ||| starts_with_ignoring_case(url, "https://"@)
    ||| starts_with_ignoring_case(url, "mailto:"@)
}

/// The lower-case form of an ASCII letter; any other character unchanged.
fn lower_char(c: char) -> (r: char)
    ensures
        r == ascii_lower(c),
{
    if 'A' <= c && c <= 'Z' {
        (c as u8 + 32) as char
    } else {
        c
    }
}

/// Whether `s` begins with `prefix`, ASCII case ignored in `s`.
fn starts_with_lower(s: &Vec<char>, prefix: &str) -> (r: bool)
    ensures
        r == starts_with_ignoring_case(s@, prefix@),
{
    let p = chars_of(prefix);
    if p.len() > s.len() {
        return false;
    }
    let mut i: usize = 0;
    while i < p.len()
        invariant
            p@ == prefix@,
            p@.len() <= s@.len(),
            i <= p@.len(),
            forall|j: int| 0 <= j < i ==> ascii_lower(#[trigger] s@[j]) == p@[j],
        decreases p.len() - i,
    {
        if lower_char(s[i]) != p[i] {
            assert(ascii_lower(s@[i as int]) != prefix@[i as int]);
            return false;
        }
        i += 1;
    }
    true
}

/// Whether `url` has one of the schemes that may be handed to an opener.
pub fn is_safe_link(url: &str) -> (r: bool)
    ensures
        r == safe_link(url@),
{
    let u = chars_of(url);
    starts_with_lower(&u, "http://") || starts_with_lower(&u, "https://")
        || starts_with_lower(&u, "mailto:")
}

// ----- Content hashes --------------------------------------------------

/// The hash of a content, 32 bytes long.
pub type ContentHash = [u8; 32];

/// Eight bytes of a content's hash: what the hasher makes of the number
/// `part` followed by the content.
pub open spec fn hash_part(bytes: Seq<u8>, part: u8) -> Seq<u8> {
    vstd::bytes::spec_u64_to_le_bytes(DefaultHasher::spec_finish(seq![seq![part], bytes]))
}

/// The 32 bytes of a content's hash.
pub open spec fn hash_of(bytes: Seq<u8>) -> Seq<u8> {
    hash_part(bytes, 0) + hash_part(bytes, 1) + hash_part(bytes, 2) + hash_part(bytes, 3)
}

/// The hash of a content.
pub open spec fn content_hash(bytes: Seq<u8>) -> ContentHash {
    choose|h: ContentHash| h@ == hash_of(bytes)
}

/// Puts eight bytes of the hash of `bytes` into `hash`.
fn put_hash_part(hash: &mut ContentHash, bytes: &[u8], part: u8)
    requires
        part < 4,
    ensures
        hash_part(bytes@, part).len() == 8,
        forall|i: int|
            0 <= i < 32 ==> #[trigger] final(hash)@[i] == if 8 * part <= i < 8 * part + 8 {
                hash_part(bytes@, part)[i - 8 * part]
            } else {
                old(hash)@[i]
            },
{
    let mut hasher = DefaultHasher::new();
    let prefix = [part];
    hasher.write(prefix.as_slice());
    hasher.write(bytes);
    assert(prefix@ =~= seq![part]);
    assert(hasher@ =~= seq![seq![part], bytes@]);
    let piece = vstd::bytes::u64_to_le_bytes(hasher.finish());
    let start: usize = 8 * (part as usize);
    let mut i: usize = 0;
    while i < 8
        invariant
            i <= 8,
            part < 4,
            start == 8 * part,
            piece@ == hash_part(bytes@, part),
            piece@.len() == 8,
            forall|j: int|
                0 <= j < 32 ==> #[trigger] hash@[j] == if start <= j < start + i {
                    piece@[j - start]
                } else {
                    old(hash)@[j]
                },
        decreases 8 - i,
    {
        hash[start + i] = piece[i];
        i += 1;
    }
}

/// Hashes `bytes`. Equal contents have equal hashes, which is what telling a
/// changed file from an unchanged one rests on. The whole content goes into
/// each eight bytes of the hash.
pub fn hash_bytes(bytes: &[u8]) -> (r: ContentHash)
    ensures
        r == content_hash(bytes@),
        r@.subrange(0, 8) == vstd::bytes::spec_u64_to_le_bytes(
            DefaultHasher::spec_finish(seq![seq![0u8], bytes@]),
        ),
        r@.subrange(8, 16) == vstd::bytes::spec_u64_to_le_bytes(
            DefaultHasher::spec_finish(seq![seq![1u8], bytes@]),
        ),
        r@.subrange(16, 24) == vstd::bytes::spec_u64_to_le_bytes(
            DefaultHasher::spec_finish(seq![seq![2u8], bytes@]),
        ),
        r@.subrange(24, 32) == vstd::bytes::spec_u64_to_le_bytes(
            DefaultHasher::spec_finish(seq![seq![3u8], bytes@]),
        ),
{
    let mut hash: ContentHash = [0u8; 32];
    put_hash_part(&mut hash, bytes, 0);
    put_hash_part(&mut hash, bytes, 1);
    put_hash_part(&mut hash, bytes, 2);
    put_hash_part(&mut hash, bytes, 3);
    proof {
        assert(hash@ =~= hash_of(bytes@));
        assert(content_hash(bytes@)@ =~= hash@);
        assert(content_hash(bytes@) =~= hash);
        assert(hash@.subrange(0, 8) =~= hash_part(bytes@, 0));
        assert(hash@.subrange(8, 16) =~= hash_part(bytes@, 1));
        assert(hash@.subrange(16, 24) =~= hash_part(bytes@, 2));
        assert(hash@.subrange(24, 32) =~= hash_part(bytes@, 3));
    }
    hash
}

/// The hash of a text's UTF-8 bytes.
pub open spec fn text_hash(s: Seq<char>) -> ContentHash {
    content_hash(vstd::utf8::encode_utf8(s))
}

/// Hashes a text, by all of its bytes.
pub fn hash_text(s: &str) -> (r: ContentHash)
    ensures
        r == text_hash(s@),
        r@.subrange(0, 8) == vstd::bytes::spec_u64_to_le_bytes(
            DefaultHasher::spec_finish(seq![seq![0u8], vstd::utf8::encode_utf8(s@)]),
        ),
        r@.subrange(8, 16) == vstd::bytes::spec_u64_to_le_bytes(
            DefaultHasher::spec_finish(seq![seq![1u8], vstd::utf8::encode_utf8(s@)]),
        ),
        r@.subrange(16, 24) == vstd::bytes::spec_u64_to_le_bytes(
            DefaultHasher::spec_finish(seq![seq![2u8], vstd::utf8::encode_utf8(s@)]),
        ),
        r@.subrange(24, 32) == vstd::bytes::spec_u64_to_le_bytes(
            DefaultHasher::spec_finish(seq![seq![3u8], vstd::utf8::encode_utf8(s@)]),
        ),
{
    hash_bytes(s.as_bytes())
}

/// Whether two hashes are the same.
pub fn same_hash(a: &ContentHash, b: &ContentHash) -> (r: bool)
    ensures
        r == (*a == *b),
{
    let mut i: usize = 0;
    while i < 32
        invariant
            i <= 32,
            forall|j: int| 0 <= j < i ==> #[trigger] a@[j] == b@[j],
        decreases 32 - i,
    {
        if a[i] != b[i] {
            return false;
        }
        i += 1;
    }
    assert(a@ =~= b@);
    assert(*a =~= *b);
    true
}

} // verus!
