//! Binding: each name in an expression is resolved to a column of the single
//! table in scope, or to the expression of a result column with that alias.
use vstd::prelude::*;
use crate::ast::{copy_expr, copy_literal, copy_node_kind, Expr, ExprList};
use crate::error::UpdateError;
use crate::ident::{ident_matches, names_match};
use crate::plan::ResultSetColumn;
use crate::schema::{Column, find_column, lookup_column, table_columns, table_name, Table};

verus! {

/// The bound reference to the `i`-th column of the table in scope.
pub open spec fn column_ref(cs: Seq<Column>, i: int) -> Expr {
    Expr::Column { table: 0, column: i as usize, is_rowid_alias: cs[i].is_rowid_alias }
}

/// The position of the first result column at or after `i` whose alias `name` names.
pub open spec fn alias_index_from(rs: Seq<ResultSetColumn>, name: Seq<char>, i: int) -> Option<
    int,
>
    decreases rs.len() - i,
{
    if i < 0 || i >= rs.len() {
        None
    } else if rs[i].alias matches Some(a) && names_match(name, a@) {
        Some(i)
    } else {
        alias_index_from(rs, name, i + 1)
    }
}

pub proof fn lemma_alias_index_bounds(rs: Seq<ResultSetColumn>, name: Seq<char>, i: int)
    ensures
        alias_index_from(rs, name, i) matches Some(k) ==> i <= k < rs.len(),
    decreases rs.len() - i,
{
    if 0 <= i < rs.len() && !(rs[i].alias matches Some(a) && names_match(name, a@)) {
        lemma_alias_index_bounds(rs, name, i + 1);
    }
}

/// The result of binding `e` against `table`, with the result columns `aliases`
/// visible by alias: a column of the table is preferred over an alias, and
/// the leftmost failing name gives the error. A `schema.table.column` name
/// binds as `table.column`; parameters and literals stay as they are.
pub open spec fn bind(e: Expr, table: Table, aliases: Seq<ResultSetColumn>) -> Result<
    Expr,
    UpdateError,
>
    decreases e,
{
    match e {
        Expr::Id(n) => match lookup_column(table_columns(table), n@) {
            Some(i) => Ok(column_ref(table_columns(table), i)),
            None => match alias_index_from(aliases, n@, 0) {
                Some(j) => Ok(aliases[j].expr),
                None => Err(UpdateError::NoSuchColumn(n)),
            },
        },
        Expr::Qualified(t, n) => bind_qualified(t, n, table),
        Expr::DoublyQualified(_, t, n) => bind_qualified(t, n, table),
        Expr::Literal(_) => Ok(e),
        Expr::Column { .. } => Ok(e),
        Expr::Variable(_) => Ok(e),
        Expr::Unary(op, inner) => match bind(*inner, table, aliases) {
            Ok(b) => Ok(Expr::Unary(op, Box::new(b))),
            Err(x) => Err(x),
        },
        Expr::Binary(l, op, r) => match bind(*l, table, aliases) {
            Ok(bl) => match bind(*r, table, aliases) {
                Ok(br) => Ok(Expr::Binary(Box::new(bl), op, Box::new(br))),
                Err(x) => Err(x),
            },
            Err(x) => Err(x),
        },
        Expr::Node(k, args) => match bind_list(args, table, aliases) {
            Ok(bs) => Ok(Expr::Node(k, bs)),
            Err(x) => Err(x),
        },
    }
}

/// The result of binding each expression of `l` in order; the first failure wins.
pub open spec fn bind_list(l: ExprList, table: Table, aliases: Seq<ResultSetColumn>) -> Result<
    ExprList,
    UpdateError,
>
    decreases l,
{
    match l {
        ExprList::Nil => Ok(ExprList::Nil),
        ExprList::Cons(h, t) => match bind(*h, table, aliases) {
            Ok(bh) => match bind_list(*t, table, aliases) {
                Ok(bt) => Ok(ExprList::Cons(Box::new(bh), Box::new(bt))),
                Err(x) => Err(x),
            },
            Err(x) => Err(x),
        },
    }
}

/// `table.column`, bound: the table must be the one in scope.
pub open spec fn bind_qualified(t: String, n: String, table: Table) -> Result<Expr, UpdateError> {
    if names_match(t@, table_name(table)@) {
        match lookup_column(table_columns(table), n@) {
            Some(i) => Ok(column_ref(table_columns(table), i)),
            None => Err(UpdateError::NoSuchColumn(n)),
        }
    } else {
        Err(UpdateError::NoSuchTable(t))
    }
}

/// Whether no unresolved name is left in `e`.
pub open spec fn is_bound(e: Expr) -> bool
    decreases e,
{
    match e {
        Expr::Id(_) => false,
        Expr::Qualified(_, _) => false,
        Expr::Literal(_) => true,
        Expr::DoublyQualified(_, _, _) => false,
        Expr::Column { .. } => true,
        Expr::Variable(_) => true,
        Expr::Unary(_, inner) => is_bound(*inner),
        Expr::Binary(l, _, r) => is_bound(*l) && is_bound(*r),
        Expr::Node(_, args) => list_is_bound(args),
    }
}

/// Whether no unresolved name is left in any expression of `l`.
pub open spec fn list_is_bound(l: ExprList) -> bool
    decreases l,
{
    match l {
        ExprList::Nil => true,
        ExprList::Cons(h, t) => is_bound(*h) && list_is_bound(*t),
    }
}

/// The position of the first result column whose alias `name` names.
fn find_alias(rs: &Vec<ResultSetColumn>, name: &str) -> (r: Option<usize>)
    ensures
        r matches Some(k) ==> alias_index_from(rs@, name@, 0) == Some(k as int) && k < rs@.len(),
        r is None ==> alias_index_from(rs@, name@, 0) is None,
{
    let mut i: usize = 0;
    while i < rs.len()
        invariant
            i <= rs@.len(),
            alias_index_from(rs@, name@, 0) == alias_index_from(rs@, name@, i as int),
        decreases rs@.len() - i,
    {
        let found = match &rs[i].alias {
            Some(a) => ident_matches(name, a.as_str()),
            None => false,
        };
        if found {
            return Some(i);
        }
        i = i + 1;
    }
    None
}

/// Binds every name in `e` against `table`, with the result columns `aliases`
/// visible by alias.
pub fn bind_column_references(e: &Expr, table: &Table, aliases: &Vec<ResultSetColumn>) -> (r:
    Result<Expr, UpdateError>)
    ensures
        r == bind(*e, *table, aliases@),
    decreases e,
{
    match e {
        Expr::Id(n) => match find_column(table.columns(), n.as_str()) {
            Some(i) => Ok(
                Expr::Column {
                    table: 0,
                    column: i,
                    is_rowid_alias: table.columns()[i].is_rowid_alias,
                },
            ),
            None => match find_alias(aliases, n.as_str()) {
                Some(j) => Ok(copy_expr(&aliases[j].expr)),
                None => Err(UpdateError::NoSuchColumn(n.clone())),
            },
        },
        Expr::Qualified(t, n) => bind_qualified_name(t, n, table),
        Expr::DoublyQualified(_, t, n) => bind_qualified_name(t, n, table),
        Expr::Literal(l) => Ok(Expr::Literal(copy_literal(l))),
        Expr::Column { .. } => Ok(copy_expr(e)),
        Expr::Variable(_) => Ok(copy_expr(e)),
        Expr::Unary(op, inner) => match bind_column_references(inner, table, aliases) {
            Ok(b) => Ok(Expr::Unary(*op, Box::new(b))),
            Err(x) => Err(x),
        },
        Expr::Binary(l, op, r) => match bind_column_references(l, table, aliases) {
            Ok(bl) => match bind_column_references(r, table, aliases) {
                Ok(br) => Ok(Expr::Binary(Box::new(bl), *op, Box::new(br))),
                Err(x) => Err(x),
            },
            Err(x) => Err(x),
        },
        Expr::Node(k, args) => match bind_each_in_list(args, table, aliases) {
            Ok(bs) => Ok(Expr::Node(copy_node_kind(k), bs)),
            Err(x) => Err(x),
        },
    }
}

/// Binds each expression of `l` in order; the first failure wins.
pub fn bind_each_in_list(l: &ExprList, table: &Table, aliases: &Vec<ResultSetColumn>) -> (r:
    Result<ExprList, UpdateError>)
    ensures
        r == bind_list(*l, *table, aliases@),
    decreases l,
{
    match l {
        ExprList::Nil => Ok(ExprList::Nil),
        ExprList::Cons(h, t) => match bind_column_references(h, table, aliases) {
            Ok(bh) => match bind_each_in_list(t, table, aliases) {
                Ok(bt) => Ok(ExprList::Cons(Box::new(bh), Box::new(bt))),
                Err(x) => Err(x),
            },
            Err(x) => Err(x),
        },
    }
}

/// Binds `table.column` against the table in scope.
fn bind_qualified_name(t: &String, n: &String, table: &Table) -> (r: Result<Expr, UpdateError>)
    ensures
        r == bind_qualified(*t, *n, *table),
{
    if ident_matches(t.as_str(), table.get_name().as_str()) {
        match find_column(table.columns(), n.as_str()) {
            Some(i) => Ok(
                Expr::Column { table: 0, column: i, is_rowid_alias: table.columns()[i].is_rowid_alias },
            ),
            None => Err(UpdateError::NoSuchColumn(n.clone())),
        }
    } else {
        Err(UpdateError::NoSuchTable(t.clone()))
    }
}

} // verus!
