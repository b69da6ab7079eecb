//! Shared planning steps: mapping a step over a list with the first failure
//! winning, `WHERE` predicates, and `LIMIT` / `OFFSET` bounds.
use vstd::prelude::*;
use vstd::string::*;
use crate::ast::{copy_expr, Expr, Limit, Literal, Operator, UnaryOperator};
use crate::binder::{bind, bind_column_references};
use crate::error::UpdateError;
use crate::plan::ResultSetColumn;
use crate::schema::Table;

verus! {

/// Applies `f` to each element in order: the results, or the first failure.
pub open spec fn try_map<A, B>(s: Seq<A>, f: spec_fn(A) -> Result<B, UpdateError>) -> Result<
    Seq<B>,
    UpdateError,
>
    decreases s.len(),
{
    if s.len() == 0 {
        Ok(Seq::empty())
    } else {
        match try_map(s.drop_last(), f) {
            Err(e) => Err(e),
            Ok(acc) => match f(s.last()) {
                Ok(b) => Ok(acc.push(b)),
                Err(e) => Err(e),
            },
        }
    }
}

/// One more element: `try_map` of a longer prefix from that of a shorter one.
pub proof fn lemma_try_map_step<A, B>(s: Seq<A>, f: spec_fn(A) -> Result<B, UpdateError>, i: int)
    requires
        0 <= i < s.len(),
    ensures
        try_map(s.take(i + 1), f) == match try_map(s.take(i), f) {
            Err(e) => Err(e),
            Ok(acc) => match f(s[i]) {
                Ok(b) => Ok(acc.push(b)),
                Err(e) => Err(e),
            },
        },
{
    assert(s.take(i + 1).drop_last() =~= s.take(i));
}

/// A failure on a prefix is the failure of the whole.
pub proof fn lemma_try_map_prefix_err<A, B>(
    s: Seq<A>,
    f: spec_fn(A) -> Result<B, UpdateError>,
    i: int,
)
    requires
        0 <= i <= s.len(),
        try_map(s.take(i), f) is Err,
    ensures
        try_map(s, f) == try_map(s.take(i), f),
    decreases s.len() - i,
{
    if i < s.len() {
        lemma_try_map_step(s, f, i);
        lemma_try_map_prefix_err(s, f, i + 1);
    } else {
        assert(s.take(i) =~= s);
    }
}

/// A success on the whole sequence is a success of the same length.
pub proof fn lemma_try_map_len<A, B>(s: Seq<A>, f: spec_fn(A) -> Result<B, UpdateError>)
    ensures
        try_map(s, f) matches Ok(r) ==> r.len() == s.len() && forall|i: int|
            0 <= i < s.len() ==> f(s[i]) == Ok::<B, UpdateError>(#[trigger] r[i]),
    decreases s.len(),
{
    if s.len() > 0 {
        lemma_try_map_len(s.drop_last(), f);
    }
}

/// The predicate split at its top-level `AND`s, left to right.
pub open spec fn conjuncts(e: Expr) -> Seq<Expr>
    decreases e,
{
    match e {
        Expr::Binary(l, Operator::And, r) => conjuncts(*l) + conjuncts(*r),
        _ => seq![e],
    }
}

/// Binding against `table`, with `aliases` visible, as a function of the expression.
pub open spec fn binder_of(table: Table, aliases: Seq<ResultSetColumn>) -> spec_fn(Expr) -> Result<
    Expr,
    UpdateError,
> {
    |e: Expr| bind(e, table, aliases)
}

/// The bound conjuncts of an optional `WHERE` predicate.
pub open spec fn where_terms(w: Option<Expr>, table: Table, aliases: Seq<ResultSetColumn>) -> Result<
    Seq<Expr>,
    UpdateError,
> {
    match w {
        None => Ok(Seq::empty()),
        Some(e) => try_map(conjuncts(e), binder_of(table, aliases)),
    }
}

/// Appends the conjuncts of `e` to `out`.
fn split_conjuncts(e: &Expr, out: &mut Vec<Expr>)
    ensures
        final(out)@ == old(out)@ + conjuncts(*e),
    decreases e,
{
    match e {
        Expr::Binary(l, Operator::And, r) => {
            split_conjuncts(l, out);
            split_conjuncts(r, out);
            assert(final(out)@ =~= old(out)@ + conjuncts(*e));
        },
        _ => {
            out.push(copy_expr(e));
            assert(final(out)@ =~= old(out)@ + conjuncts(*e));
        },
    }
}

/// Binds each expression of `parts` in order; the first failure wins.
fn bind_each(parts: &Vec<Expr>, table: &Table, aliases: &Vec<ResultSetColumn>) -> (r: Result<
    Vec<Expr>,
    UpdateError,
>)
    ensures
        r matches Ok(v) ==> try_map(parts@, binder_of(*table, aliases@)) == Ok::<
            Seq<Expr>,
            UpdateError,
        >(v@),
        r matches Err(e) ==> try_map(parts@, binder_of(*table, aliases@)) == Err::<
            Seq<Expr>,
            UpdateError,
        >(e),
{
    let ghost f = binder_of(*table, aliases@);
    let mut out: Vec<Expr> = Vec::new();
    let mut i: usize = 0;
    while i < parts.len()
        invariant
            i <= parts@.len(),
            f == binder_of(*table, aliases@),
            try_map(parts@.take(i as int), f) == Ok::<Seq<Expr>, UpdateError>(out@),
        decreases parts@.len() - i,
    {
        let b = bind_column_references(&parts[i], table, aliases);
        proof {
            lemma_try_map_step(parts@, f, i as int);
        }
        match b {
            Ok(x) => {
                out.push(x);
            },
            Err(x) => {
                proof {
                    lemma_try_map_prefix_err(parts@, f, i + 1);
                }
                return Err(x);
            },
        }
        i = i + 1;
    }
    assert(parts@.take(i as int) =~= parts@);
    Ok(out)
}

/// The `WHERE` predicate as a list of bound conjuncts, in order; the result
/// columns `result_columns` are visible by alias.
pub fn parse_where(
    where_clause: &Option<Expr>,
    table: &Table,
    result_columns: &Vec<ResultSetColumn>,
) -> (r: Result<Vec<Expr>, UpdateError>)
    ensures
        r matches Ok(v) ==> where_terms(*where_clause, *table, result_columns@) == Ok::<
            Seq<Expr>,
            UpdateError,
        >(v@),
        r matches Err(e) ==> where_terms(*where_clause, *table, result_columns@) == Err::<
            Seq<Expr>,
            UpdateError,
        >(e),
{
    match where_clause {
        None => Ok(Vec::new()),
        Some(e) => {
            let mut parts: Vec<Expr> = Vec::new();
            split_conjuncts(e, &mut parts);
            assert(parts@ =~= conjuncts(*e));
            bind_each(&parts, table, result_columns)
        },
    }
}

/// Whether `c` is an ASCII decimal digit.
pub open spec fn is_digit(c: char) -> bool {
    '0' <= c && c <= '9'
}

/// Whether every character of `s` is a decimal digit.
pub open spec fn all_digits(s: Seq<char>) -> bool {
    forall|i: int| 0 <= i < s.len() ==> is_digit(#[trigger] s[i])
}

/// The number that the decimal digits `s` write.
pub open spec fn digits_value(s: Seq<char>) -> int
    decreases s.len(),
{
    if s.len() == 0 {
        0
    } else {
        digits_value(s.drop_last()) * 10 + (s.last() as u32 - '0' as u32)
    }
}

/// The integer that `s` writes: an optional sign, then one or more digits.
pub open spec fn integer_value(s: Seq<char>) -> Option<int> {
    if s.len() > 0 && (s[0] == '+' || s[0] == '-') {
        let d = s.drop_first();
        if d.len() > 0 && all_digits(d) {
            Some(
                if s[0] == '-' {
                    -digits_value(d)
                } else {
                    digits_value(d)
                },
            )
        } else {
            None
        }
    } else if s.len() > 0 && all_digits(s) {
        Some(digits_value(s))
    } else {
        None
    }
}

/// The `i64` that `s` writes, if it writes one in range.
pub open spec fn parse_i64(s: Seq<char>) -> Option<i64> {
    match integer_value(s) {
        Some(v) => if i64::MIN <= v <= i64::MAX {
            Some(v as i64)
        } else {
            None
        },
        None => None,
    }
}

pub proof fn lemma_digits_nonneg(s: Seq<char>)
    requires
        all_digits(s),
    ensures
        digits_value(s) >= 0,
    decreases s.len(),
{
    if s.len() > 0 {
        lemma_digits_nonneg(s.drop_last());
    }
}

/// A prefix of digits writes no more than the whole.
pub proof fn lemma_digits_prefix_le(s: Seq<char>, j: int)
    requires
        all_digits(s),
        0 <= j <= s.len(),
    ensures
        digits_value(s.take(j)) <= digits_value(s),
    decreases s.len(),
{
    if j == s.len() {
        assert(s.take(j) =~= s);
    } else {
        lemma_digits_prefix_le(s.drop_last(), j);
        assert(s.drop_last().take(j) =~= s.take(j));
        lemma_digits_nonneg(s.drop_last());
    }
}

/// The largest magnitude of an `i64`, that of its minimum.
const MAGNITUDE_LIMIT: u64 = 9223372036854775808;

/// Reads a decimal integer: an optional `+` or `-`, then one or more digits,
/// in the range of `i64`; anything else gives `None`.
pub fn parse_integer(s: &str) -> (r: Option<i64>)
    ensures
        r == parse_i64(s@),
{
    let n = s.unicode_len();
    if n == 0 {
        return None;
    }
    let first = s.get_char(0);
    let signed = first == '+' || first == '-';
    let negative = first == '-';
    let start: usize = if signed { 1 } else { 0 };
    if start == n {
        return None;
    }
    let ghost d = s@.subrange(start as int, n as int);
    assert(signed ==> d =~= s@.drop_first());
    assert(!signed ==> d =~= s@);
    let mut acc: u64 = 0;
    let mut i: usize = start;
    while i < n
        invariant
            start <= i <= n,
            n == s@.len(),
            d == s@.subrange(start as int, n as int),
            signed ==> d == s@.drop_first(),
            !signed ==> d == s@,
            signed == (s@[0] == '+' || s@[0] == '-'),
            negative == (s@[0] == '-'),
            start == if signed { 1usize } else { 0usize },
            all_digits(d.take(i - start)),
            acc as int == digits_value(d.take(i - start)),
            acc <= MAGNITUDE_LIMIT,
        decreases n - i,
    {
        let c = s.get_char(i);
        let k = Ghost((i - start) as int);
        assert(d.take(k@ + 1).drop_last() =~= d.take(k@));
        if c < '0' || c > '9' {
            assert(!is_digit(d[k@]));
            assert(!all_digits(d));
            return None;
        }
        let digit: u64 = (c as u32 - '0' as u32) as u64;
        if acc > 922337203685477580 || acc * 10 + digit > MAGNITUDE_LIMIT {
            assert(all_digits(d.take(k@ + 1)));
            proof {
                if all_digits(d) {
                    lemma_digits_prefix_le(d, k@ + 1);
                }
            }
            return None;
        }
        acc = acc * 10 + digit;
        i = i + 1;
    }
    assert(d.take(n - start) =~= d);
    if negative {
        if acc == MAGNITUDE_LIMIT {
            Some(i64::MIN)
        } else {
            Some(-(acc as i64))
        }
    } else if acc == MAGNITUDE_LIMIT {
        None
    } else {
        Some(acc as i64)
    }
}

/// The bound that a `LIMIT` or `OFFSET` expression gives: `Err` where it is
/// not an integer literal, possibly negated; `Ok(None)` where its digits do
/// not make an `i64`.
pub open spec fn bound_value(e: Expr) -> Result<Option<i64>, ()> {
    match e {
        Expr::Literal(Literal::Numeric(n)) => Ok(parse_i64(n@)),
        Expr::Unary(UnaryOperator::Negative, inner) => match *inner {
            Expr::Literal(Literal::Numeric(n)) => Ok(
                match parse_i64(n@) {
                    Some(v) => if v != i64::MIN {
                        Some((-v) as i64)
                    } else {
                        None
                    },
                    None => None,
                },
            ),
            _ => Err(()),
        },
        _ => Err(()),
    }
}

/// The `(limit, offset)` pair of a `LIMIT` clause; a missing offset is zero.
/// The offset is read first, so an invalid offset is the error reported.
pub open spec fn limit_bounds(l: Limit) -> Result<(Option<i64>, Option<i64>), UpdateError> {
    let offset = match l.offset {
        None => Ok(Some(0i64)),
        Some(o) => bound_value(o),
    };
    match offset {
        Err(_) => Err(UpdateError::InvalidOffset),
        Ok(off) => match bound_value(l.expr) {
            Ok(lim) => Ok((lim, off)),
            Err(_) => Err(UpdateError::InvalidLimit),
        },
    }
}

fn parse_bound(e: &Expr) -> (r: Result<Option<i64>, ()>)
    ensures
        r == bound_value(*e),
{
    match e {
        Expr::Literal(Literal::Numeric(n)) => Ok(parse_integer(n.as_str())),
        Expr::Unary(UnaryOperator::Negative, inner) => match &**inner {
            Expr::Literal(Literal::Numeric(n)) => Ok(
                match parse_integer(n.as_str()) {
                    Some(v) => if v != i64::MIN {
                        Some(-v)
                    } else {
                        None
                    },
                    None => None,
                },
            ),
            _ => Err(()),
        },
        _ => Err(()),
    }
}

/// Reads the bounds of a `LIMIT` clause.
pub fn parse_limit(l: &Limit) -> (r: Result<(Option<i64>, Option<i64>), UpdateError>)
    ensures
        r == limit_bounds(*l),
{
    let offset = match &l.offset {
        None => Ok(Some(0i64)),
        Some(o) => parse_bound(o),
    };
    match offset {
        Err(_) => Err(UpdateError::InvalidOffset),
        Ok(off) => match parse_bound(&l.expr) {
            Ok(lim) => Ok((lim, off)),
            Err(_) => Err(UpdateError::InvalidLimit),
        },
    }
}

} // verus!
