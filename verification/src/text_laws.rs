//! Laws of texts: what a search finds, how numbers are written, which links may
//! be opened, and what a content's hash is made of.

use std::collections::hash_map::DefaultHasher;

use vstd::prelude::*;
use vstd::std_specs::hash::DefaultHasherAdditionalSpecFns;

use crate::text;

verus! {

// ----- Searching -------------------------------------------------------

/// Law: a text is found in another exactly if it is a piece of it.
pub proof fn law_found_is_a_piece(hay: Seq<char>, needle: Seq<char>)
    ensures
        text::contains_text(hay, needle) <==> exists|a: Seq<char>, b: Seq<char>|
            hay == #[trigger] (a + needle + b),
{
    if text::contains_text(hay, needle) {
        let at = choose|at: int| text::occurs_at(hay, needle, at);
        let a = hay.take(at);
        let b = hay.skip(at + needle.len());
        assert(hay.subrange(at, at + needle.len()) == needle);
        assert(hay =~= a + hay.subrange(at, at + needle.len()) + b);
    }
    if exists|a: Seq<char>, b: Seq<char>| hay == #[trigger] (a + needle + b) {
        let (a, b) = choose|a: Seq<char>, b: Seq<char>| hay == #[trigger] (a + needle + b);
        assert(hay.subrange(a.len() as int, (a.len() + needle.len()) as int) =~= needle);
        assert(text::occurs_at(hay, needle, a.len() as int));
    }
}

/// Law: a query with an upper-case character, wherever in it that stands, is
/// found exactly in the texts that it is a piece of as it is.
pub proof fn law_upper_case_makes_a_search_exact(hay: Seq<char>, query: Seq<char>, i: int)
    requires
        0 <= i < query.len(),
        text::is_uppercase_char(query[i]),
    ensures
        text::smart_case_match(hay, query) <==> exists|a: Seq<char>, b: Seq<char>|
            hay == #[trigger] (a + query + b),
{
    law_found_is_a_piece(hay, query);
}

/// Law: a query without an upper-case character is found exactly in the texts
/// whose lower-case form it is a piece of; one without any character is found
/// nowhere.
pub proof fn law_other_searches_ignore_case(hay: Seq<char>, query: Seq<char>)
    requires
        forall|i: int| 0 <= i < query.len() ==> !text::is_uppercase_char(#[trigger] query[i]),
    ensures
        text::smart_case_match(hay, query) <==> query.len() > 0 && exists|
            a: Seq<char>,
            b: Seq<char>,
        | text::lowercase(hay) == #[trigger] (a + query + b),
{
    law_found_is_a_piece(text::lowercase(hay), query);
}

/// Law: what is found in a piece of a text by an exact search is found in the
/// text.
pub proof fn law_pieces_are_found(
    before: Seq<char>,
    piece: Seq<char>,
    after: Seq<char>,
    query: Seq<char>,
    i: int,
)
    requires
        0 <= i < query.len(),
        text::is_uppercase_char(query[i]),
        exists|a: Seq<char>, b: Seq<char>| piece == #[trigger] (a + query + b),
    ensures
        text::smart_case_match(before + piece + after, query),
{
    let (a, b) = choose|a: Seq<char>, b: Seq<char>| piece == #[trigger] (a + query + b);
    let whole = before + piece + after;
    assert(whole =~= (before + a) + query + (b + after));
    law_upper_case_makes_a_search_exact(whole, query, i);
}

/// Law: the lower-case form of a character is that of the letter for the
/// letters from `A` to `Z`, and the character itself for any other.
pub proof fn law_letters_are_lowered(c: char)
    ensures
        'A' <= c && c <= 'Z' ==> text::ascii_lower(c) as int == c as int + 32,
        !('A' <= c && c <= 'Z') ==> text::ascii_lower(c) == c,
{
}

// ----- First and last --------------------------------------------------

/// Law: the first index is one at which the predicate holds, with none before
/// it; and there is one wherever the predicate holds at all.
pub proof fn law_first_is_first<A>(s: Seq<A>, p: spec_fn(A) -> bool, from: int)
    requires
        0 <= from,
    ensures
        text::first_from(s, p, from) matches Some(i) ==> from <= i < s.len() && p(s[i])
            && forall|j: int| from <= j < i ==> !p(#[trigger] s[j]),
        forall|j: int|
            from <= j < s.len() && p(#[trigger] s[j]) ==> text::first_from(s, p, from) is Some,
{
    text::lemma_first_from(s, p, from);
}

/// Law: the last index is one at which the predicate holds, with none after it
/// below the end; and there is one wherever the predicate holds at all.
pub proof fn law_last_is_last<A>(s: Seq<A>, p: spec_fn(A) -> bool, end: int)
    requires
        end <= s.len(),
    ensures
        text::last_before(s, p, end) matches Some(i) ==> 0 <= i < end && p(s[i]) && forall|j: int|
            i < j < end ==> !p(#[trigger] s[j]),
        forall|j: int|
            0 <= j < end && p(#[trigger] s[j]) ==> text::last_before(s, p, end) is Some,
{
    text::lemma_last_before(s, p, end);
}

// ----- Numbers ---------------------------------------------------------

/// Law: a number is written in decimal digits, the first of which is zero for
/// zero alone, and reading them from left to right gives the number back.
pub proof fn law_decimal_is_read_back(n: nat)
    ensures
        text::decimal(n).len() > 0,
        forall|i: int|
            0 <= i < text::decimal(n).len() ==> '0' <= #[trigger] text::decimal(n)[i]
                && text::decimal(n)[i] <= '9',
        text::decimal(n)[0] == '0' <==> n == 0,
        text::decimal(n).fold_left(0int, |value: int, c: char| value * 10 + (c as int - '0' as int))
            == n,
    decreases n,
{
    let f = |value: int, c: char| value * 10 + (c as int - '0' as int);
    let s = text::decimal(n);
    if n < 10 {
        assert(s.drop_last() =~= Seq::empty());
        assert(s.drop_last().fold_left(0int, f) == 0);
        assert(s.last() as int - '0' as int == n);
    } else {
        law_decimal_is_read_back(n / 10);
        let front = text::decimal(n / 10);
        assert(s.drop_last() =~= front);
        assert(s.last() as int - '0' as int == n % 10);
        assert(front.fold_left(0int, f) == n / 10);
        assert(s[0] == front[0]);
        assert forall|i: int| 0 <= i < s.len() implies '0' <= #[trigger] s[i] && s[i] <= '9' by {
            if i < front.len() {
                assert(s[i] == front[i]);
            }
        }
    }
}

// ----- Links -----------------------------------------------------------

/// The character is the given lower-case letter, or its upper-case form.
pub open spec fn either_case(c: char, lower: char) -> bool {
    c == lower || c as int == lower as int - 32
}

/// Law: a link may be opened exactly if it begins with `http://`, `https://` or
/// `mailto:`, each letter in either case.
pub proof fn law_safe_links(url: Seq<char>)
    ensures
        text::safe_link(url) <==> {
            ||| url.len() >= 7 && either_case(url[0], 'h') && either_case(url[1], 't')
                && either_case(url[2], 't') && either_case(url[3], 'p') && url[4] == ':' && url[5]
                == '/' && url[6] == '/'
            ||| url.len() >= 8 && either_case(url[0], 'h') && either_case(url[1], 't')
                && either_case(url[2], 't') && either_case(url[3], 'p') && either_case(url[4], 's')
                && url[5] == ':' && url[6] == '/' && url[7] == '/'
            ||| url.len() >= 7 && either_case(url[0], 'm') && either_case(url[1], 'a')
                && either_case(url[2], 'i') && either_case(url[3], 'l') && either_case(url[4], 't')
                && either_case(url[5], 'o') && url[6] == ':'
        },
{
    reveal_strlit("http://");
    reveal_strlit("https://");
    reveal_strlit("mailto:");
    let a = "http://"@;
    let b = "https://"@;
    let c = "mailto:"@;
    if url.len() >= 7 {
        assert(text::starts_with_ignoring_case(url, a) == (text::ascii_lower(url[0]) == a[0]
            && text::ascii_lower(url[1]) == a[1] && text::ascii_lower(url[2]) == a[2]
            && text::ascii_lower(url[3]) == a[3] && text::ascii_lower(url[4]) == a[4]
            && text::ascii_lower(url[5]) == a[5] && text::ascii_lower(url[6]) == a[6]));
        assert(text::starts_with_ignoring_case(url, c) == (text::ascii_lower(url[0]) == c[0]
            && text::ascii_lower(url[1]) == c[1] && text::ascii_lower(url[2]) == c[2]
            && text::ascii_lower(url[3]) == c[3] && text::ascii_lower(url[4]) == c[4]
            && text::ascii_lower(url[5]) == c[5] && text::ascii_lower(url[6]) == c[6]));
    }
    if url.len() >= 8 {
        assert(text::starts_with_ignoring_case(url, b) == (text::ascii_lower(url[0]) == b[0]
            && text::ascii_lower(url[1]) == b[1] && text::ascii_lower(url[2]) == b[2]
            && text::ascii_lower(url[3]) == b[3] && text::ascii_lower(url[4]) == b[4]
            && text::ascii_lower(url[5]) == b[5] && text::ascii_lower(url[6]) == b[6]
            && text::ascii_lower(url[7]) == b[7]));
    }
}

// ----- Hashes ----------------------------------------------------------

/// Law: a hash is made of the whole content. Each eight bytes of it are what
/// the hasher gives that was fed the number of the part and then every byte of
/// the content.
pub proof fn law_hash_is_of_the_whole_content(bytes: Seq<u8>, part: u8)
    requires
        part < 4,
    ensures
        text::hash_of(bytes).len() == 32,
        text::hash_of(bytes).subrange(8 * part as int, 8 * part + 8)
            == vstd::bytes::spec_u64_to_le_bytes(
            DefaultHasher::spec_finish(seq![seq![part], bytes]),
        ),
{
    vstd::bytes::lemma_auto_spec_u64_to_from_le_bytes();
    let finish = |k: u8| DefaultHasher::spec_finish(seq![seq![k], bytes]);
    let of = |k: u8| vstd::bytes::spec_u64_to_le_bytes(finish(k));
    assert(of(0).len() == 8 && of(1).len() == 8 && of(2).len() == 8 && of(3).len() == 8);
    let all = text::hash_of(bytes);
    assert(all.subrange(8 * part as int, 8 * part + 8) =~= of(part));
}

/// Law: two contents that differ in any byte, or in their length, are never fed
/// to the hasher as the same input, nor is one content for two parts.
pub proof fn law_contents_are_hashed_apart(a: Seq<u8>, b: Seq<u8>, p: u8, q: u8)
    requires
        p < 4,
        q < 4,
    ensures
        ({
            let fed = |bytes: Seq<u8>, part: u8| seq![seq![part], bytes];
            &&& fed(a, p) == fed(b, q) <==> a == b && p == q
            &&& text::hash_part(a, p) == vstd::bytes::spec_u64_to_le_bytes(
                DefaultHasher::spec_finish(fed(a, p)),
            )
        }),
{
    let x = seq![seq![p], a];
    let y = seq![seq![q], b];
    if x == y {
        assert(x[0][0] == y[0][0]);
        assert(x[1] == y[1]);
    }
}

/// Law: a text is hashed by all of its bytes.
pub proof fn law_text_is_hashed_by_its_bytes(s: Seq<char>)
    ensures
        text::text_hash(s) == text::content_hash(vstd::utf8::encode_utf8(s)),
{
}

} // verus!
