//! The logical plan of an `UPDATE` statement.
use vstd::prelude::*;
use crate::ast::Expr;
use crate::schema::{Table, TableView};

verus! {

/// The order in which a cursor visits the rows of a table.
#[derive(Clone, Copy, Debug, PartialEq, Eq)]
pub enum IterationDirection {
    Forwards,
    Backwards,
}

/// The direction of an `ORDER BY` term.
#[derive(Clone, Copy, Debug, PartialEq, Eq)]
pub enum Direction {
    Ascending,
    Descending,
}

/// How a table is visited.
#[derive(Clone, Debug, PartialEq, Eq)]
pub enum Operation {
    /// A scan of the whole table, optionally through a named index.
    Scan { iter_dir: IterationDirection, index: Option<String> },
}

/// A table in the scope of a statement.
#[derive(Clone, Debug, PartialEq, Eq)]
pub struct TableReference {
    pub table: Table,
    /// The name under which the statement refers to the table.
    pub identifier: String,
    pub op: Operation,
}

/// The mathematical value of a `TableReference`.
pub struct TableReferenceView {
    pub table: TableView,
    pub identifier: String,
    pub op: Operation,
}

impl View for TableReference {
    type V = TableReferenceView;

    open spec fn view(&self) -> TableReferenceView {
        TableReferenceView { table: self.table@, identifier: self.identifier, op: self.op }
    }
}

/// One column of a `RETURNING` projection.
#[derive(Clone, Debug, PartialEq, Eq)]
pub struct ResultSetColumn {
    pub expr: Expr,
    pub alias: Option<String>,
    pub contains_aggregates: bool,
}

/// The plan of an `UPDATE` statement.
#[derive(Clone, Debug, PartialEq, Eq)]
pub struct UpdatePlan {
    /// The single table that is updated.
    pub table_references: Vec<TableReference>,
    /// For each assignment, in statement order: the column's position and the bound value.
    pub set_clauses: Vec<(usize, Expr)>,
    /// Bound predicates, all of which a row must meet; none means every row.
    pub where_clause: Vec<Expr>,
    /// The bound `RETURNING` projection; empty when there is none.
    pub returning: Vec<ResultSetColumn>,
    /// The `ORDER BY` terms as written, with their directions.
    pub order_by: Option<Vec<(Expr, Direction)>>,
    pub limit: Option<i64>,
    pub offset: Option<i64>,
    /// Set once the predicate is known never to hold.
    pub contains_constant_false_condition: bool,
}

/// A plan of a statement.
#[derive(Clone, Debug, PartialEq, Eq)]
pub enum Plan {
    Update(UpdatePlan),
}

/// The mathematical value of an `UpdatePlan`.
pub struct UpdatePlanView {
    pub table_references: Seq<TableReferenceView>,
    pub set_clauses: Seq<(usize, Expr)>,
    pub where_clause: Seq<Expr>,
    pub returning: Seq<ResultSetColumn>,
    pub order_by: Option<Seq<(Expr, Direction)>>,
    pub limit: Option<i64>,
    pub offset: Option<i64>,
    pub contains_constant_false_condition: bool,
}

impl View for UpdatePlan {
    type V = UpdatePlanView;

    open spec fn view(&self) -> UpdatePlanView {
        UpdatePlanView {
            table_references: self.table_references@.map_values(|r: TableReference| r@),
            set_clauses: self.set_clauses@,
            where_clause: self.where_clause@,
            returning: self.returning@,
            order_by: match self.order_by {
                Some(v) => Some(v@),
                None => None,
            },
            limit: self.limit,
            offset: self.offset,
            contains_constant_false_condition: self.contains_constant_false_condition,
        }
    }
}

} // verus!
