//! Responses of the node: the standard response type with its combinators,
//! and the reading of operation names from GraphQL documents.

pub mod base;
pub mod factory;
pub mod node;
pub mod standard_response;

use vstd::prelude::*;
use crate::json::str_field;
use crate::numeric::string_push;
use crate::text::{opt_view, str_eq};
pub use crate::response::base::{BaseResponse, Response};
pub use crate::response::factory::{AnyResponse, ResponseFactory};
pub use crate::response::node::{
    ResponseActiveSession, ResponseAtom, ResponseAuthorizationGuest, ResponseBalance, ResponseClaimShadowWallet,
    ResponseContinuId, ResponseCreateIdentifier, ResponseCreateMeta, ResponseCreateRule, ResponseCreateToken,
    ResponseCreateWallet, ResponseLinkIdentifier, ResponseMetaBatch, ResponseMetaType, ResponseMetaTypeViaAtom,
    ResponsePolicy, ResponseProposeMolecule, ResponseQueryActiveSession, ResponseQueryUserActivity,
    ResponseRequestAuthorization, ResponseRequestAuthorizationGuest, ResponseRequestTokens, ResponseTransferTokens,
    ResponseWalletBundle, ResponseWalletList,
};



verus! {

/// Whether a character has the Unicode `Alphabetic` property.
pub uninterp spec fn alphabetic(c: char) -> bool;

/// Whether a character has the Unicode `White_Space` property: tab, line
/// feed, vertical tab, form feed, carriage return, space, next line,
/// no-break space, ogham space mark, the spaces U+2000 to U+200A, line and
/// paragraph separators, narrow no-break space, medium mathematical space and
/// ideographic space.
pub open spec fn white_space(c: char) -> bool {
    ||| '\u{9}' <= c <= '\u{d}'
    ||| c == ' '
    ||| c == '\u{85}'
    ||| c == '\u{a0}'
    ||| c == '\u{1680}'
    ||| '\u{2000}' <= c <= '\u{200a}'
    ||| c == '\u{2028}'
    ||| c == '\u{2029}'
    ||| c == '\u{202f}'
    ||| c == '\u{205f}'
    ||| c == '\u{3000}'
}

/// `char::is_alphabetic` of std: whether the character has the Unicode
/// `Alphabetic` property.
#[verifier::external_body]
fn char_is_alphabetic(c: char) -> (r: bool)
    ensures
        r == alphabetic(c),
{
    c.is_alphabetic()
}

/// Whether the character has the Unicode `White_Space` property, as
/// `char::is_whitespace` of std tells.
fn char_is_whitespace(c: char) -> (r: bool)
    ensures
        r == white_space(c),
{
    ('\u{9}' <= c && c <= '\u{d}') || c == ' ' || c == '\u{85}' || c == '\u{a0}' || c == '\u{1680}'
        || ('\u{2000}' <= c && c <= '\u{200a}') || c == '\u{2028}' || c == '\u{2029}' || c == '\u{202f}'
        || c == '\u{205f}' || c == '\u{3000}'
}

/// The characters of a string, in order.
pub fn chars_of(s: &str) -> (r: Vec<char>)
    ensures
        r@ == s@,
{
    broadcast use vstd::string::axiom_spec_iter;
    let mut v: Vec<char> = Vec::new();
    for c in it: s.chars()
        invariant
            v@ == it.seq().take(it.index()),
    {
        v.push(c);
    }
    assert(v@ =~= s@);
    v
}

/// Whether `pat` occurs in `s` at index `i`.
pub open spec fn occurs_at(s: Seq<char>, pat: Seq<char>, i: int) -> bool {
    0 <= i && i + pat.len() <= s.len() && s.subrange(i, i + pat.len()) == pat
}

/// The first index from `i` on at which `pat` occurs in `s`.
pub open spec fn find_seq_from(s: Seq<char>, pat: Seq<char>, i: int) -> Option<int>
    decreases s.len() + 1 - i,
{
    if i < 0 || i + pat.len() > s.len() {
        None
    } else if occurs_at(s, pat, i) {
        Some(i)
    } else {
        find_seq_from(s, pat, i + 1)
    }
}

/// The first index at which a character satisfying `p` stands in `s`, from `i` on.
pub open spec fn find_char_from(s: Seq<char>, p: spec_fn(char) -> bool, i: int) -> Option<int>
    decreases s.len() - i,
{
    if i < 0 || i >= s.len() {
        None
    } else if p(s[i]) {
        Some(i)
    } else {
        find_char_from(s, p, i + 1)
    }
}

/// The predicate of being the character `c`.
pub open spec fn is_char(c: char) -> spec_fn(char) -> bool {
    |x: char| x == c
}

/// The predicate of being alphabetic.
pub open spec fn is_alphabetic() -> spec_fn(char) -> bool {
    |x: char| alphabetic(x)
}

/// The predicate of being white space.
pub open spec fn is_white_space() -> spec_fn(char) -> bool {
    |x: char| white_space(x)
}

/// The smaller of two optional positions; a missing one does not count.
pub open spec fn earliest(a: Option<int>, b: Option<int>) -> Option<int> {
    match (a, b) {
        (Some(x), Some(y)) => Some(if x <= y { x } else { y }),
        (Some(x), None) => Some(x),
        (None, _) => b,
    }
}

/// The smaller of two optional positions, as `earliest` says.
fn earliest_of(a: Option<usize>, b: Option<usize>) -> (r: Option<usize>)
    ensures
        match r {
            Some(x) => earliest(
                match a { Some(i) => Some(i as int), None => None },
                match b { Some(i) => Some(i as int), None => None },
            ) == Some(x as int),
            None => a is None && b is None,
        },
{
    match (a, b) {
        (Some(x), Some(y)) => Some(if x <= y { x } else { y }),
        (Some(x), None) => Some(x),
        (None, _) => b,
    }
}

/// `s` without the white space at its start.
pub open spec fn trim_start(s: Seq<char>) -> Seq<char>
    decreases s.len(),
{
    if s.len() > 0 && white_space(s[0]) {
        trim_start(s.drop_first())
    } else {
        s
    }
}

/// `s` without the white space at its end.
pub open spec fn trim_end(s: Seq<char>) -> Seq<char>
    decreases s.len(),
{
    if s.len() > 0 && white_space(s.last()) {
        trim_end(s.drop_last())
    } else {
        s
    }
}

/// `s` without white space at either end (`str::trim`).
pub open spec fn trimmed(s: Seq<char>) -> Seq<char> {
    trim_end(trim_start(s))
}

/// The word of `s` up to the first space, `(` or `{`, whichever comes first, trimmed.
pub open spec fn name_before_delimiter(s: Seq<char>) -> Option<Seq<char>> {
    match earliest(
        find_char_from(s, is_char(' '), 0),
        earliest(find_char_from(s, is_char('('), 0), find_char_from(s, is_char('{'), 0)),
    ) {
        Some(e) => Some(trimmed(s.subrange(0, e))),
        None => None,
    }
}

/// The word of `s` up to the first white space, `(` or `{`, whichever comes first, trimmed.
pub open spec fn name_before_space(s: Seq<char>) -> Option<Seq<char>> {
    match earliest(
        find_char_from(s, is_white_space(), 0),
        earliest(find_char_from(s, is_char('('), 0), find_char_from(s, is_char('{'), 0)),
    ) {
        Some(e) => Some(trimmed(s.subrange(0, e))),
        None => None,
    }
}

/// The operation name of a GraphQL document: the word that follows the first
/// `query ` (or, without one, the first `mutation `), else the first word
/// after the first `{`.
pub open spec fn operation_name(q: Seq<char>) -> Option<Seq<char>> {
    let after_keyword = match find_seq_from(q, "query "@, 0) {
        Some(st) => Some(st + 6),
        None => match find_seq_from(q, "mutation "@, 0) {
            Some(st) => Some(st + 9),
            None => None,
        },
    };
    let from_keyword = match after_keyword {
        Some(a) => name_before_delimiter(q.subrange(a, q.len() as int)),
        None => None,
    };
    match from_keyword {
        Some(n) => Some(n),
        None => match find_char_from(q, is_char('{'), 0) {
            Some(i) => match find_char_from(q.subrange(i + 1, q.len() as int), is_alphabetic(), 0) {
                Some(st) => name_before_space(q.subrange(i + 1 + st, q.len() as int)),
                None => None,
            },
            None => None,
        },
    }
}

/// The first index at which `pat` occurs in `s`.
pub(crate) fn find_seq(s: &Vec<char>, pat: &Vec<char>) -> (r: Option<usize>)
    ensures
        match r {
            Some(i) => find_seq_from(s@, pat@, 0) == Some(i as int),
            None => find_seq_from(s@, pat@, 0) is None,
        },
{
    if pat.len() > s.len() {
        return None;
    }
    let last: usize = s.len() - pat.len();
    let mut i: usize = 0;
    while i <= last
        invariant
            last + pat@.len() == s@.len(),
            i <= s@.len(),
            find_seq_from(s@, pat@, 0) == find_seq_from(s@, pat@, i as int),
        decreases s@.len() + 1 - i,
    {
        let mut k: usize = 0;
        let mut same = true;
        while k < pat.len()
            invariant
                s@.len() == s.len(),
                i + pat@.len() <= s@.len(),
                k <= pat@.len(),
                same == (forall|j: int| 0 <= j < k ==> s@[i + j] == pat@[j]),
            decreases pat@.len() - k,
        {
            if s[i + k] != pat[k] {
                same = false;
            }
            k = k + 1;
        }
        proof {
            if same {
                assert(s@.subrange(i as int, i + pat@.len()) =~= pat@);
            } else {
                let j = choose|j: int| 0 <= j < pat@.len() && s@[i + j] != pat@[j];
                assert(s@.subrange(i as int, i + pat@.len())[j] != pat@[j]);
            }
        }
        if same {
            return Some(i);
        }
        if i == last {
            assert(find_seq_from(s@, pat@, i as int) == find_seq_from(s@, pat@, i + 1));
            assert(find_seq_from(s@, pat@, i + 1) is None);
            return None;
        }
        i = i + 1;
    }
    None
}

/// The first index from `from` on of the character `c` in `s`.
fn find_char(s: &Vec<char>, from: usize, c: char) -> (r: Option<usize>)
    requires
        from <= s@.len(),
    ensures
        match r {
            Some(i) => find_char_from(s@, is_char(c), from as int) == Some(i as int),
            None => find_char_from(s@, is_char(c), from as int) is None,
        },
{
    let mut i: usize = from;
    while i < s.len()
        invariant
            from <= i <= s@.len(),
            find_char_from(s@, is_char(c), from as int) == find_char_from(s@, is_char(c), i as int),
        decreases s@.len() - i,
    {
        if s[i] == c {
            return Some(i);
        }
        i = i + 1;
    }
    None
}

/// The first index from `from` on of an alphabetic character in `s`.
fn find_alphabetic(s: &Vec<char>, from: usize) -> (r: Option<usize>)
    requires
        from <= s@.len(),
    ensures
        match r {
            Some(i) => find_char_from(s@, is_alphabetic(), from as int) == Some(i as int),
            None => find_char_from(s@, is_alphabetic(), from as int) is None,
        },
{
    let mut i: usize = from;
    while i < s.len()
        invariant
            from <= i <= s@.len(),
            find_char_from(s@, is_alphabetic(), from as int) == find_char_from(s@, is_alphabetic(), i as int),
        decreases s@.len() - i,
    {
        if char_is_alphabetic(s[i]) {
            return Some(i);
        }
        i = i + 1;
    }
    None
}

/// The first index from `from` on of a white-space character in `s`.
fn find_white_space(s: &Vec<char>, from: usize) -> (r: Option<usize>)
    requires
        from <= s@.len(),
    ensures
        match r {
            Some(i) => find_char_from(s@, is_white_space(), from as int) == Some(i as int),
            None => find_char_from(s@, is_white_space(), from as int) is None,
        },
{
    let mut i: usize = from;
    while i < s.len()
        invariant
            from <= i <= s@.len(),
            find_char_from(s@, is_white_space(), from as int) == find_char_from(s@, is_white_space(), i as int),
        decreases s@.len() - i,
    {
        if char_is_whitespace(s[i]) {
            return Some(i);
        }
        i = i + 1;
    }
    None
}

/// Where `find_seq_from` finds `pat`, it occurs, at or after the index it starts from.
proof fn lemma_find_seq_occurs(s: Seq<char>, pat: Seq<char>, i: int)
    ensures
        find_seq_from(s, pat, i) matches Some(k) ==> occurs_at(s, pat, k) && k >= i,
    decreases s.len() + 1 - i,
{
    if !(i < 0 || i + pat.len() > s.len()) && !occurs_at(s, pat, i) {
        lemma_find_seq_occurs(s, pat, i + 1);
    }
}

/// Where `find_char_from` finds a character, it satisfies the predicate and lies in `s`.
proof fn lemma_find_char_in_range(s: Seq<char>, p: spec_fn(char) -> bool, i: int)
    ensures
        find_char_from(s, p, i) matches Some(k) ==> i <= k < s.len() && p(s[k]),
    decreases s.len() - i,
{
    if !(i < 0 || i >= s.len()) && !p(s[i]) {
        lemma_find_char_in_range(s, p, i + 1);
    }
}

/// The characters `v[a..b]`.
fn sub_chars(v: &Vec<char>, a: usize, b: usize) -> (r: Vec<char>)
    requires
        a <= b <= v@.len(),
    ensures
        r@ == v@.subrange(a as int, b as int),
{
    let mut r: Vec<char> = Vec::new();
    let mut j: usize = a;
    while j < b
        invariant
            a <= j <= b <= v@.len(),
            r@ == v@.subrange(a as int, j as int),
        decreases b - j,
    {
        r.push(v[j]);
        assert(r@ =~= v@.subrange(a as int, j + 1));
        j = j + 1;
    }
    r
}

/// The characters `v[a..b]` with white space at both ends removed, as a string.
fn trimmed_string(v: &Vec<char>, a: usize, b: usize) -> (r: String)
    requires
        a <= b <= v@.len(),
    ensures
        r@ == trimmed(v@.subrange(a as int, b as int)),
{
    let mut lo: usize = a;
    while lo < b && char_is_whitespace(v[lo])
        invariant
            a <= lo <= b <= v@.len(),
            trim_start(v@.subrange(a as int, b as int)) == trim_start(v@.subrange(lo as int, b as int)),
        decreases b - lo,
    {
        assert(v@.subrange(lo as int, b as int).drop_first() =~= v@.subrange(lo + 1, b as int));
        lo = lo + 1;
    }
    assert(trim_start(v@.subrange(lo as int, b as int)) == v@.subrange(lo as int, b as int));
    let mut hi: usize = b;
    while hi > lo && char_is_whitespace(v[hi - 1])
        invariant
            a <= lo <= hi <= b <= v@.len(),
            trim_end(v@.subrange(lo as int, b as int)) == trim_end(v@.subrange(lo as int, hi as int)),
        decreases hi - lo,
    {
        assert(v@.subrange(lo as int, hi as int).drop_last() =~= v@.subrange(lo as int, hi - 1));
        hi = hi - 1;
    }
    assert(trim_end(v@.subrange(lo as int, hi as int)) == v@.subrange(lo as int, hi as int));
    let mut r = String::new();
    let mut j: usize = lo;
    while j < hi
        invariant
            lo <= j <= hi <= v@.len(),
            r@ == v@.subrange(lo as int, j as int),
        decreases hi - j,
    {
        string_push(&mut r, v[j]);
        assert(r@ =~= v@.subrange(lo as int, j + 1));
        j = j + 1;
    }
    r
}

/// The trimmed word of `v` up to the first space, `(` or `{`, whichever comes first.
fn word_before_delimiter(v: &Vec<char>) -> (r: Option<String>)
    ensures
        match r {
            Some(n) => name_before_delimiter(v@) == Some(n@),
            None => name_before_delimiter(v@) is None,
        },
{
    let end = earliest_of(find_char(v, 0, ' '), earliest_of(find_char(v, 0, '('), find_char(v, 0, '{')));
    proof {
        lemma_find_char_in_range(v@, is_char(' '), 0);
        lemma_find_char_in_range(v@, is_char('('), 0);
        lemma_find_char_in_range(v@, is_char('{'), 0);
    }
    match end {
        Some(e) => Some(trimmed_string(v, 0, e)),
        None => None,
    }
}

/// The trimmed word of `v` up to the first white space, `(` or `{`, whichever comes first.
fn word_before_space(v: &Vec<char>) -> (r: Option<String>)
    ensures
        match r {
            Some(n) => name_before_space(v@) == Some(n@),
            None => name_before_space(v@) is None,
        },
{
    let end = earliest_of(find_white_space(v, 0), earliest_of(find_char(v, 0, '('), find_char(v, 0, '{')));
    proof {
        lemma_find_char_in_range(v@, is_white_space(), 0);
        lemma_find_char_in_range(v@, is_char('('), 0);
        lemma_find_char_in_range(v@, is_char('{'), 0);
    }
    match end {
        Some(e) => Some(trimmed_string(v, 0, e)),
        None => None,
    }
}

/// Helpers for reading responses and the documents that produced them.
#[derive(Debug)]
pub struct ResponseUtils;

impl ResponseUtils {
    /// The operation name of a GraphQL document, if one can be read.
    pub fn extract_operation_name(query: &str) -> (r: Option<String>)
        ensures
            match r {
                Some(n) => operation_name(query@) == Some(n@),
                None => operation_name(query@) is None,
            },
    {
        let q = chars_of(query);
        let kw_query = chars_of("query ");
        let kw_mutation = chars_of("mutation ");
        proof {
            reveal_strlit("query ");
            reveal_strlit("mutation ");
            lemma_find_seq_occurs(q@, "query "@, 0);
            lemma_find_seq_occurs(q@, "mutation "@, 0);
            assert("query "@.len() == 6);
            assert("mutation "@.len() == 9);
        }
        let after_keyword: Option<usize> = match find_seq(&q, &kw_query) {
            Some(i) => {
                assert(occurs_at(q@, "query "@, i as int));
                assert(q@.len() == q.len());
                assert(i + 6 <= q@.len());
                Some(i + 6)
            },
            None => match find_seq(&q, &kw_mutation) {
                Some(i) => {
                    assert(occurs_at(q@, "mutation "@, i as int));
                    assert(q@.len() == q.len());
                    assert(i + 9 <= q@.len());
                    Some(i + 9)
                },
                None => None,
            },
        };
        match after_keyword {
            Some(a) => {
                assert(a <= q@.len());
                assert(q@.len() == q.len());
                let rest = sub_chars(&q, a, q.len());
                match word_before_delimiter(&rest) {
                    Some(n) => {
                        return Some(n);
                    },
                    None => {},
                }
            },
            None => {},
        }
        proof {
            lemma_find_char_in_range(q@, is_char('{'), 0);
        }
        match find_char(&q, 0, '{') {
            Some(i) => {
                let rest = sub_chars(&q, i + 1, q.len());
                proof {
                    lemma_find_char_in_range(rest@, is_alphabetic(), 0);
                }
                match find_alphabetic(&rest, 0) {
                    Some(st) => {
                        let rest2 = sub_chars(&q, i + 1 + st, q.len());
                        word_before_space(&rest2)
                    },
                    None => None,
                }
            },
            None => None,
        }
    }

    /// Whether a response reports success and the status `accepted`.
    pub fn is_molecular_accepted<R: Response>(response: &R) -> (r: bool)
        ensures
            r == (response.succeeded() && response.status_view() == Some("accepted"@)),
    {
        if !response.success() {
            return false;
        }
        match response.status() {
            Some(s) => str_eq(s.as_str(), "accepted"),
            None => false,
        }
    }

    /// The molecular hash a response carries, when it is a string.
    pub fn extract_molecular_hash<R: Response>(response: &R) -> (r: Option<String>)
        ensures
            opt_view(r) == str_field(response.view_data(), "molecularHash"@),
    {
        match response.get("molecularHash") {
            Some(v) => match v.as_str() {
                Some(s) => Some(s.to_owned()),
                None => None,
            },
            None => None,
        }
    }
}

/// A place for the documentation of the response types.
#[derive(Debug)]
pub struct ResponseDocumentation;

} // verus!
