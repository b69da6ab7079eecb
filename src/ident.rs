//! SQL identifier comparison: an identifier as written may be wrapped in one
//! pair of quotes (`"x"`, `[x]` or `` `x` ``) and is matched against declared
//! names without regard to ASCII letter case.
use vstd::prelude::*;
use vstd::string::*;

verus! {

/// Whether `c` is an ASCII upper-case letter.
pub open spec fn is_ascii_upper(c: char) -> bool {
    'A' <= c && c <= 'Z'
}

/// Two characters are equal when ASCII letter case is ignored.
pub open spec fn char_eq_ignore_case(a: char, b: char) -> bool {
    a == b || (is_ascii_upper(a) && a as u32 + 32 == b as u32) || (is_ascii_upper(b) && b as u32
        + 32 == a as u32)
}

/// Two strings are equal when ASCII letter case is ignored.
pub open spec fn eq_ignore_case(a: Seq<char>, b: Seq<char>) -> bool {
    a.len() == b.len() && forall|i: int| 0 <= i < a.len() ==> char_eq_ignore_case(#[trigger] a[i], b[i])
}

/// Whether `open` and `close` are one of the quote pairs of SQL identifiers.
pub open spec fn is_quote_pair(open: char, close: char) -> bool {
    (open == '"' && close == '"') || (open == '[' && close == ']') || (open == '`' && close == '`')
}

/// Whether the written identifier is wrapped in a pair of quotes.
pub open spec fn is_quoted(s: Seq<char>) -> bool {
    s.len() >= 2 && is_quote_pair(s[0], s[s.len() - 1])
}

/// The identifier without its surrounding quotes, if it has any.
pub open spec fn unquote(s: Seq<char>) -> Seq<char> {
    if is_quoted(s) {
        s.subrange(1, s.len() - 1)
    } else {
        s
    }
}

/// Whether the identifier `written` in a statement names the declared name `declared`.
pub open spec fn names_match(written: Seq<char>, declared: Seq<char>) -> bool {
    eq_ignore_case(unquote(written), declared)
}

/// Compares two characters, ignoring ASCII letter case.
pub fn chars_eq_ignore_case(a: char, b: char) -> (r: bool)
    ensures
        r == char_eq_ignore_case(a, b),
{
    let x: u32 = a as u32;
    let y: u32 = b as u32;
    if x == y {
        true
    } else if 65 <= x && x <= 90 && x + 32 == y {
        true
    } else {
        65 <= y && y <= 90 && y + 32 == x
    }
}

/// Decides whether the identifier `written` names the declared name `declared`.
pub fn ident_matches(written: &str, declared: &str) -> (r: bool)
    ensures
        r == names_match(written@, declared@),
{
    let n = written.unicode_len();
    let mut start: usize = 0;
    let mut end: usize = n;
    if n >= 2 {
        let first = written.get_char(0);
        let last = written.get_char(n - 1);
        if (first == '"' && last == '"') || (first == '[' && last == ']') || (first == '`' && last
            == '`') {
            start = 1;
            end = n - 1;
        }
    }
    let u = Ghost(written@.subrange(start as int, end as int));
    assert(u@ =~= unquote(written@));
    let m = declared.unicode_len();
    if end - start != m {
        return false;
    }
    let mut i: usize = 0;
    while i < m
        invariant
            n == written@.len(),
            m == declared@.len(),
            start <= end <= n,
            end - start == m,
            i <= m,
            u@ == written@.subrange(start as int, end as int),
            u@ == unquote(written@),
            forall|j: int| 0 <= j < i ==> char_eq_ignore_case(#[trigger] u@[j], declared@[j]),
        decreases m - i,
    {
        if !chars_eq_ignore_case(written.get_char(start + i), declared.get_char(i)) {
            assert(u@[i as int] == written@[start + i]);
            assert(!char_eq_ignore_case(u@[i as int], declared@[i as int]));
            return false;
        }
        i = i + 1;
    }
    true
}

} // verus!
