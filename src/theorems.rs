//! What holds of the planner over all statements and catalogs.
use vstd::prelude::*;
use crate::ast::{Expr, ExprList, ResultColumn, Update};
use crate::binder::{bind, bind_list, is_bound, list_is_bound};
use crate::error::UpdateError;
use crate::plan::ResultSetColumn;
use crate::planner::{binder_of, conjuncts, lemma_try_map_len, try_map};
use crate::schema::{lemma_column_index_bounds, lookup_column, lookup_table, table_columns, Table};
use crate::update::{
    assignment_resolver, limit_of, result_column_resolver, returning_columns, update_plan,
};

verus! {

/// Whether `body` is a statement that the planner supports against `tables`:
/// no `WITH` or `OR <conflict>`, a B-tree target, every `SET` target naming a
/// column, and every expression of `SET` and `RETURNING` naming only columns
/// of the table, and of `WHERE` only columns or `RETURNING` aliases;
/// `RETURNING` holds plain expressions and `LIMIT` integer literals.
pub open spec fn is_supported(tables: Seq<Table>, body: Update) -> bool {
    &&& body.with is None
    &&& body.or_conflict is None
    &&& (lookup_table(tables, body.tbl_name@) matches Some(t) && t is BTree && {
        &&& forall|i: int|
            0 <= i < body.sets@.len() ==> lookup_column(
                table_columns(t),
                (#[trigger] body.sets@[i]).col_name@,
            ) is Some && bind(body.sets@[i].expr, t, Seq::empty()) is Ok
        &&& (body.returning matches Some(v) ==> forall|i: int|
            0 <= i < v@.len() ==> ((#[trigger] v@[i]) matches ResultColumn::Expr(e, _) && bind(
                e,
                t,
                Seq::empty(),
            ) is Ok))
        &&& (body.where_clause matches Some(w) ==> forall|i: int|
            0 <= i < conjuncts(w).len() ==> bind(
                #[trigger] conjuncts(w)[i],
                t,
                returning_columns(body.returning, t)->Ok_0,
            ) is Ok)
    })
    &&& limit_of(body.limit) is Ok
}

proof fn lemma_try_map_all_ok<A, B>(s: Seq<A>, f: spec_fn(A) -> Result<B, UpdateError>)
    requires
        forall|i: int| 0 <= i < s.len() ==> #[trigger] f(s[i]) is Ok,
    ensures
        try_map(s, f) is Ok,
    decreases s.len(),
{
    if s.len() > 0 {
        assert(forall|i: int| 0 <= i < s.len() - 1 ==> s.drop_last()[i] == s[i]);
        lemma_try_map_all_ok(s.drop_last(), f);
        assert(f(s[s.len() - 1]) is Ok);
    }
}

/// A successful binding leaves no name unresolved, where the aliases in
/// scope are themselves bound.
pub proof fn lemma_bind_resolves_all(e: Expr, t: Table, aliases: Seq<ResultSetColumn>)
    requires
        forall|j: int| 0 <= j < aliases.len() ==> is_bound(#[trigger] aliases[j].expr),
    ensures
        bind(e, t, aliases) matches Ok(b) ==> is_bound(b),
    decreases e,
{
    match e {
        Expr::Id(n) => {
            crate::binder::lemma_alias_index_bounds(aliases, n@, 0);
        },
        Expr::Unary(_, inner) => lemma_bind_resolves_all(*inner, t, aliases),
        Expr::Binary(l, _, r) => {
            lemma_bind_resolves_all(*l, t, aliases);
            lemma_bind_resolves_all(*r, t, aliases);
        },
        Expr::Node(_, args) => lemma_bind_list_resolves_all(args, t, aliases),
        _ => {},
    }
}

/// A successful binding of a list leaves no name unresolved in it.
pub proof fn lemma_bind_list_resolves_all(l: ExprList, t: Table, aliases: Seq<ResultSetColumn>)
    requires
        forall|j: int| 0 <= j < aliases.len() ==> is_bound(#[trigger] aliases[j].expr),
    ensures
        bind_list(l, t, aliases) matches Ok(b) ==> list_is_bound(b),
    decreases l,
{
    if let ExprList::Cons(h, rest) = l {
        lemma_bind_resolves_all(*h, t, aliases);
        lemma_bind_list_resolves_all(*rest, t, aliases);
    }
}

/// A supported statement is planned, with one entry of `set_clauses` for
/// each `SET` assignment, in statement order: the position of the first
/// column that the target names, and the value bound against the table.
pub proof fn lemma_supported_statement_is_planned(tables: Seq<Table>, body: Update)
    requires
        is_supported(tables, body),
    ensures
        (update_plan(tables, body) matches Ok(p) && p.set_clauses.len() == body.sets@.len() && {
            let t = lookup_table(tables, body.tbl_name@)->Some_0;
            forall|i: int|
                0 <= i < body.sets@.len() ==> #[trigger] p.set_clauses[i] == (
                    lookup_column(table_columns(t), body.sets@[i].col_name@)->Some_0 as usize,
                    bind(body.sets@[i].expr, t, Seq::empty())->Ok_0,
                )
        }),
{
    let t = lookup_table(tables, body.tbl_name@)->Some_0;
    let fs = assignment_resolver(t, body.tbl_name);
    lemma_try_map_all_ok(body.sets@, fs);
    lemma_try_map_len(body.sets@, fs);
    let ret: Seq<ResultSetColumn> = match body.returning {
        None => Seq::empty(),
        Some(v) => {
            let fr = result_column_resolver(t);
            assert(forall|i: int| 0 <= i < v@.len() ==> #[trigger] fr(v@[i]) is Ok);
            lemma_try_map_all_ok(v@, fr);
            try_map(v@, fr)->Ok_0
        },
    };
    if let Some(w) = body.where_clause {
        let fw = binder_of(t, ret);
        let cs = conjuncts(w);
        assert(ret == returning_columns(body.returning, t)->Ok_0);
        assert(forall|i: int| 0 <= i < cs.len() ==> #[trigger] fw(cs[i]) is Ok);
        lemma_try_map_all_ok(cs, fw);
    }
}

/// Every plan satisfies the single-table invariants: each `SET` target is a
/// column of the table, and no expression of `SET`, `WHERE` or `RETURNING`
/// holds an unresolved name.
pub proof fn lemma_plan_is_fully_bound(tables: Seq<Table>, body: Update)
    ensures
        update_plan(tables, body) matches Ok(p) ==> {
            &&& p.table_references.len() == 1
            &&& forall|k: int|
                0 <= k < p.set_clauses.len() ==> (#[trigger] p.set_clauses[k]).0
                    < p.table_references[0].table.columns.len() && is_bound(p.set_clauses[k].1)
            &&& forall|k: int| 0 <= k < p.where_clause.len() ==> is_bound(#[trigger] p.where_clause[k])
            &&& forall|k: int| 0 <= k < p.returning.len() ==> is_bound(#[trigger] p.returning[k].expr)
        },
{
    if let Ok(p) = update_plan(tables, body) {
        let t = lookup_table(tables, body.tbl_name@)->Some_0;
        let fs = assignment_resolver(t, body.tbl_name);
        lemma_try_map_len(body.sets@, fs);
        assert forall|k: int| 0 <= k < p.set_clauses.len() implies (#[trigger] p.set_clauses[k]).0
            < p.table_references[0].table.columns.len() && is_bound(p.set_clauses[k].1) by {
            lemma_column_index_bounds(table_columns(t), body.sets@[k].col_name@, 0);
            lemma_bind_resolves_all(body.sets@[k].expr, t, Seq::empty());
        }
        if let Some(v) = body.returning {
            let fr = result_column_resolver(t);
            lemma_try_map_len(v@, fr);
            assert forall|k: int| 0 <= k < p.returning.len() implies is_bound(
                #[trigger] p.returning[k].expr,
            ) by {
                if let ResultColumn::Expr(e, _) = v@[k] {
                    lemma_bind_resolves_all(e, t, Seq::empty());
                }
            }
        }
        if let Some(w) = body.where_clause {
            let fw = binder_of(t, p.returning);
            lemma_try_map_len(conjuncts(w), fw);
            assert forall|k: int| 0 <= k < p.where_clause.len() implies is_bound(
                #[trigger] p.where_clause[k],
            ) by {
                lemma_bind_resolves_all(conjuncts(w)[k], t, p.returning);
            }
        }
    }
}

/// Planning is deterministic: equal statements against equal catalogs give
/// equal plans, or equal errors.
pub proof fn lemma_planning_is_deterministic(
    tables1: Seq<Table>,
    tables2: Seq<Table>,
    body1: Update,
    body2: Update,
)
    requires
        tables1 == tables2,
        body1 == body2,
    ensures
        update_plan(tables1, body1) == update_plan(tables2, body2),
{
}

} // verus!
