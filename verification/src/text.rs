//! String helpers shared by the library: views of optional strings and lists of
//! strings, and comparison of string slices.

use vstd::prelude::*;

verus! {

/// The characters of an optional string.
pub open spec fn opt_view(o: Option<String>) -> Option<Seq<char>> {
    match o {
        Some(s) => Some(s@),
        None => None,
    }
}

/// The characters of an optional string slice.
pub open spec fn opt_ref_view(o: Option<&str>) -> Option<Seq<char>> {
    match o {
        Some(s) => Some(s@),
        None => None,
    }
}

/// The characters of each string of a list.
pub open spec fn strings_view(v: Seq<String>) -> Seq<Seq<char>> {
    v.map_values(|s: String| s@)
}

/// Borrow the string held by an option.
pub fn opt_as_str(o: &Option<String>) -> (r: Option<&str>)
    ensures
        opt_ref_view(r) == opt_view(*o),
{
    match o {
        Some(s) => Some(s.as_str()),
        None => None,
    }
}

/// Whether two string slices hold the same characters.
pub(crate) fn str_eq(a: &str, b: &str) -> (r: bool)
    ensures
        r == (a@ == b@),
{
    let x = crate::response::chars_of(a);
    let y = crate::response::chars_of(b);
    if x.len() != y.len() {
        return false;
    }
    let mut i: usize = 0;
    while i < x.len()
        invariant
            x@ == a@,
            y@ == b@,
            x@.len() == y@.len(),
            i <= x@.len(),
            forall|k: int| 0 <= k < i ==> x@[k] == y@[k],
        decreases x@.len() - i,
    {
        if x[i] != y[i] {
            assert(a@[i as int] != b@[i as int]);
            return false;
        }
        i = i + 1;
    }
    assert(x@ =~= y@);
    true
}

/// A copy of a list of strings.
pub fn clone_strings(v: &Vec<String>) -> (r: Vec<String>)
    ensures
        r@ == v@,
{
    let r = v.clone();
    assert(r@ =~= v@);
    r
}

/// Owned copies of a list of string slices, in order.
pub fn to_owned_strings(v: &[&str]) -> (r: Vec<String>)
    ensures
        r@.len() == v@.len(),
        forall|i: int| 0 <= i < v@.len() ==> (#[trigger] r@[i])@ == v@[i]@,
{
    let mut r: Vec<String> = Vec::new();
    let mut i: usize = 0;
    while i < v.len()
        invariant
            i <= v@.len(),
            r@.len() == i,
            forall|j: int| 0 <= j < i ==> (#[trigger] r@[j])@ == v@[j]@,
        decreases v@.len() - i,
    {
        r.push(v[i].to_owned());
        i = i + 1;
    }
    r
}

/// The Unicode lower case of a text, as `str::to_lowercase` of std gives it.
pub uninterp spec fn lower_case(s: Seq<char>) -> Seq<char>;

/// `str::to_lowercase` of std: the Unicode lower case of a text.
#[verifier::external_body]
pub(crate) fn to_lower_case(s: &str) -> (r: String)
    ensures
        r@ == lower_case(s@),
{
    s.to_lowercase()
}

/// A decimal digit.
pub open spec fn is_digit(c: char) -> bool {
    '0' <= c && c <= '9'
}

/// Digits with at most one decimal point, and at least one digit.
pub open spec fn decimal_text(s: Seq<char>) -> bool {
    &&& forall|i: int| 0 <= i < s.len() ==> is_digit(#[trigger] s[i]) || s[i] == '.'
    &&& forall|i: int, j: int| 0 <= i < j < s.len() ==> !(#[trigger] s[i] == '.' && #[trigger] s[j] == '.')
    &&& exists|i: int| 0 <= i < s.len() && is_digit(#[trigger] s[i])
}

/// A decimal number, with an optional sign: `100`, `-0.5`, `1000.50`.
pub open spec fn numeric(s: Seq<char>) -> bool {
    if s.len() > 0 && (s[0] == '-' || s[0] == '+') {
        decimal_text(s.drop_first())
    } else {
        decimal_text(s)
    }
}

/// Whether a text is a decimal number, with an optional sign.
pub fn is_numeric(s: &str) -> (r: bool)
    ensures
        r == numeric(s@),
{
    let cs = crate::response::chars_of(s);
    let n: usize = cs.len();
    let start: usize = if n > 0 && (cs[0] == '-' || cs[0] == '+') { 1 } else { 0 };
    let ghost body = cs@.skip(start as int);
    assert(numeric(s@) == decimal_text(body)) by {
        if start == 1 {
            assert(cs@.drop_first() =~= body);
        } else {
            assert(cs@ =~= body);
        }
    }
    let mut seen_dot = false;
    let mut seen_digit = false;
    let mut i: usize = start;
    while i < n
        invariant
            start <= i <= n,
            n == cs@.len(),
            body == cs@.skip(start as int),
            numeric(s@) == decimal_text(body),
            forall|k: int| 0 <= k < i - start ==> is_digit(#[trigger] body[k]) || body[k] == '.',
            forall|k: int, l: int| 0 <= k < l < i - start ==> !(#[trigger] body[k] == '.' && #[trigger] body[l] == '.'),
            seen_dot == (exists|k: int| 0 <= k < i - start && #[trigger] body[k] == '.'),
            seen_digit == (exists|k: int| 0 <= k < i - start && is_digit(#[trigger] body[k])),
        decreases n - i,
    {
        let c = cs[i];
        let ghost k = i - start;
        assert(body[k] == c);
        if c == '.' {
            if seen_dot {
                let ghost p = choose|p: int| 0 <= p < i - start && #[trigger] body[p] == '.';
                assert(!decimal_text(body)) by {
                    assert(body[p] == '.' && body[k] == '.');
                }
                return false;
            }
            seen_dot = true;
        } else if '0' <= c && c <= '9' {
            seen_digit = true;
        } else {
            assert(!decimal_text(body)) by {
                assert(!(is_digit(body[k]) || body[k] == '.'));
            }
            return false;
        }
        i = i + 1;
    }
    assert(body.len() == n - start);
    seen_digit
}

} // verus!
