//! Building the plan of an `UPDATE` statement.
use vstd::prelude::*;
use crate::ast::{copy_expr, As, Assignment, Expr, Limit, ResultColumn, SortOrder, SortedColumn, Update};
use crate::binder::{bind, bind_column_references};
use crate::error::UpdateError;
use crate::plan::{
    Direction, IterationDirection, Operation, Plan, ResultSetColumn, TableReference,
    TableReferenceView, UpdatePlan, UpdatePlanView,
};
use crate::planner::{
    lemma_try_map_prefix_err, lemma_try_map_step, limit_bounds, parse_limit, parse_where,
    try_map, where_terms,
};
use crate::schema::{
    copy_table, find_column, lemma_column_index_bounds, lookup_column, lookup_table, table_columns, Schema, Table,
};

verus! {

/// The scan direction that the first `ORDER BY` term asks for: backwards
/// for an explicit `DESC`, forwards otherwise.
pub open spec fn scan_direction(order_by: Option<Vec<SortedColumn>>) -> IterationDirection {
    match order_by {
        Some(v) => if v@.len() > 0 && v@[0].order == Some(SortOrder::Desc) {
            IterationDirection::Backwards
        } else {
            IterationDirection::Forwards
        },
        None => IterationDirection::Forwards,
    }
}

/// An `ORDER BY` term as the plan carries it; `ASC` when no order is written.
pub open spec fn order_term(c: SortedColumn) -> (Expr, Direction) {
    (
        c.expr,
        match c.order {
            Some(SortOrder::Desc) => Direction::Descending,
            _ => Direction::Ascending,
        },
    )
}

/// The `ORDER BY` terms as the plan carries them.
pub open spec fn order_by_terms(o: Option<Vec<SortedColumn>>) -> Option<Seq<(Expr, Direction)>> {
    match o {
        Some(v) => Some(v@.map_values(|c: SortedColumn| order_term(c))),
        None => None,
    }
}

/// One resolved assignment: the position of the first column that the target
/// names, and the value bound against the table; `tbl_name` is the table's
/// name as the statement writes it. A value that names no column fails the
/// statement, as a `RETURNING` expression does.
pub open spec fn resolve_assignment(table: Table, tbl_name: String, a: Assignment) -> Result<
    (usize, Expr),
    UpdateError,
> {
    match lookup_column(table_columns(table), a.col_name@) {
        None => Err(UpdateError::ColumnNotFound { column: a.col_name, table: tbl_name }),
        Some(i) => match bind(a.expr, table, Seq::empty()) {
            Ok(b) => Ok((i as usize, b)),
            Err(e) => Err(e),
        },
    }
}

/// `resolve_assignment` as a function of the assignment.
pub open spec fn assignment_resolver(table: Table, tbl_name: String) -> spec_fn(Assignment) -> Result<
    (usize, Expr),
    UpdateError,
> {
    |a: Assignment| resolve_assignment(table, tbl_name, a)
}

/// The alias of a result column, where it is written with `AS`.
pub open spec fn alias_name(a: Option<As>) -> Option<String> {
    match a {
        Some(As::As(n)) => Some(n),
        _ => None,
    }
}

/// One resolved `RETURNING` column: a plain expression, bound against the table.
pub open spec fn resolve_result_column(table: Table, rc: ResultColumn) -> Result<
    ResultSetColumn,
    UpdateError,
> {
    match rc {
        ResultColumn::Expr(e, alias) => match bind(e, table, Seq::empty()) {
            Ok(b) => Ok(ResultSetColumn { expr: b, alias: alias_name(alias), contains_aggregates: false }),
            Err(x) => Err(x),
        },
        _ => Err(UpdateError::ReturningNotExpression),
    }
}

/// `resolve_result_column` as a function of the result column.
pub open spec fn result_column_resolver(table: Table) -> spec_fn(ResultColumn) -> Result<
    ResultSetColumn,
    UpdateError,
> {
    |rc: ResultColumn| resolve_result_column(table, rc)
}

/// The resolved `RETURNING` projection; empty where there is no such clause.
pub open spec fn returning_columns(r: Option<Vec<ResultColumn>>, table: Table) -> Result<
    Seq<ResultSetColumn>,
    UpdateError,
> {
    match r {
        None => Ok(Seq::empty()),
        Some(v) => try_map(v@, result_column_resolver(table)),
    }
}

/// The bounds of an optional `LIMIT` clause; none where there is no such clause.
pub open spec fn limit_of(l: Option<Limit>) -> Result<(Option<i64>, Option<i64>), UpdateError> {
    match l {
        None => Ok((None, None)),
        Some(l) => limit_bounds(l),
    }
}

/// The plan of `body` against the catalog `tables`, or the first rule that
/// the statement breaks, in this order: `WITH`, `OR <conflict>`, the table's
/// existence, its kind, the `SET` targets and values in order, the
/// `RETURNING` columns in order, the `WHERE` conjuncts, the `LIMIT` clause.
pub open spec fn update_plan(tables: Seq<Table>, body: Update) -> Result<
    UpdatePlanView,
    UpdateError,
> {
    if body.with is Some {
        Err(UpdateError::WithNotSupported)
    } else if body.or_conflict is Some {
        Err(UpdateError::OnConflictNotSupported)
    } else {
        match lookup_table(tables, body.tbl_name@) {
            None => Err(UpdateError::NoSuchTable(body.tbl_name)),
            Some(table) => if !(table is BTree) {
                Err(UpdateError::NotBTreeTable(body.tbl_name))
            } else {
                let tref = TableReferenceView {
                    table: table@,
                    identifier: body.tbl_name,
                    op: Operation::Scan { iter_dir: scan_direction(body.order_by), index: None },
                };
                match try_map(body.sets@, assignment_resolver(table, body.tbl_name)) {
                    Err(e) => Err(e),
                    Ok(sets) => match returning_columns(body.returning, table) {
                        Err(e) => Err(e),
                        Ok(ret) => match where_terms(body.where_clause, table, ret) {
                            Err(e) => Err(e),
                            Ok(w) => match limit_of(body.limit) {
                                Err(e) => Err(e),
                                Ok(bounds) => Ok(
                                    UpdatePlanView {
                                        table_references: seq![tref],
                                        set_clauses: sets,
                                        where_clause: w,
                                        returning: ret,
                                        order_by: order_by_terms(body.order_by),
                                        limit: bounds.0,
                                        offset: bounds.1,
                                        contains_constant_false_condition: false,
                                    },
                                ),
                            },
                        },
                    },
                }
            },
        }
    }
}

/// Resolves each assignment in order; the first failure wins.
fn resolve_assignments(table: &Table, tbl_name: &String, sets: &Vec<Assignment>) -> (r: Result<
    Vec<(usize, Expr)>,
    UpdateError,
>)
    ensures
        r matches Ok(v) ==> try_map(sets@, assignment_resolver(*table, *tbl_name)) == Ok::<
            Seq<(usize, Expr)>,
            UpdateError,
        >(v@),
        r matches Err(e) ==> try_map(sets@, assignment_resolver(*table, *tbl_name)) == Err::<
            Seq<(usize, Expr)>,
            UpdateError,
        >(e),
{
    let ghost f = assignment_resolver(*table, *tbl_name);
    let no_aliases: Vec<ResultSetColumn> = Vec::new();
    let mut out: Vec<(usize, Expr)> = Vec::new();
    let mut i: usize = 0;
    while i < sets.len()
        invariant
            i <= sets@.len(),
            f == assignment_resolver(*table, *tbl_name),
            no_aliases@ == Seq::<ResultSetColumn>::empty(),
            try_map(sets@.take(i as int), f) == Ok::<Seq<(usize, Expr)>, UpdateError>(out@),
        decreases sets@.len() - i,
    {
        proof {
            lemma_try_map_step(sets@, f, i as int);
        }
        let a = &sets[i];
        match find_column(table.columns(), a.col_name.as_str()) {
            None => {
                proof {
                    lemma_try_map_prefix_err(sets@, f, i + 1);
                }
                return Err(
                    UpdateError::ColumnNotFound { column: a.col_name.clone(), table: tbl_name.clone() },
                );
            },
            Some(k) => match bind_column_references(&a.expr, table, &no_aliases) {
                Ok(b) => {
                    out.push((k, b));
                },
                Err(x) => {
                    proof {
                        lemma_try_map_prefix_err(sets@, f, i + 1);
                    }
                    return Err(x);
                },
            },
        }
        i = i + 1;
    }
    assert(sets@.take(i as int) =~= sets@);
    Ok(out)
}

/// Resolves each `RETURNING` column in order; the first failure wins.
fn resolve_returning(table: &Table, cols: &Vec<ResultColumn>) -> (r: Result<
    Vec<ResultSetColumn>,
    UpdateError,
>)
    ensures
        r matches Ok(v) ==> try_map(cols@, result_column_resolver(*table)) == Ok::<
            Seq<ResultSetColumn>,
            UpdateError,
        >(v@),
        r matches Err(e) ==> try_map(cols@, result_column_resolver(*table)) == Err::<
            Seq<ResultSetColumn>,
            UpdateError,
        >(e),
{
    let ghost f = result_column_resolver(*table);
    let no_aliases: Vec<ResultSetColumn> = Vec::new();
    let mut out: Vec<ResultSetColumn> = Vec::new();
    let mut i: usize = 0;
    while i < cols.len()
        invariant
            i <= cols@.len(),
            f == result_column_resolver(*table),
            no_aliases@ == Seq::<ResultSetColumn>::empty(),
            try_map(cols@.take(i as int), f) == Ok::<Seq<ResultSetColumn>, UpdateError>(out@),
        decreases cols@.len() - i,
    {
        proof {
            lemma_try_map_step(cols@, f, i as int);
        }
        match &cols[i] {
            ResultColumn::Expr(e, alias) => match bind_column_references(e, table, &no_aliases) {
                Ok(b) => {
                    let name = match alias {
                        Some(As::As(n)) => Some(n.clone()),
                        _ => None,
                    };
                    out.push(ResultSetColumn { expr: b, alias: name, contains_aggregates: false });
                },
                Err(x) => {
                    proof {
                        lemma_try_map_prefix_err(cols@, f, i + 1);
                    }
                    return Err(x);
                },
            },
            _ => {
                proof {
                    lemma_try_map_prefix_err(cols@, f, i + 1);
                }
                return Err(UpdateError::ReturningNotExpression);
            },
        }
        i = i + 1;
    }
    assert(cols@.take(i as int) =~= cols@);
    Ok(out)
}

/// The `ORDER BY` terms with their directions, expressions copied unbound.
fn copy_order_by(terms: &Vec<SortedColumn>) -> (r: Vec<(Expr, Direction)>)
    ensures
        r@ == terms@.map_values(|c: SortedColumn| order_term(c)),
{
    let mut out: Vec<(Expr, Direction)> = Vec::new();
    let mut i: usize = 0;
    while i < terms.len()
        invariant
            i <= terms@.len(),
            out@ == terms@.take(i as int).map_values(|c: SortedColumn| order_term(c)),
        decreases terms@.len() - i,
    {
        let dir = match terms[i].order {
            Some(SortOrder::Desc) => Direction::Descending,
            _ => Direction::Ascending,
        };
        out.push((copy_expr(&terms[i].expr), dir));
        i = i + 1;
        assert(out@ =~= terms@.take(i as int).map_values(|c: SortedColumn| order_term(c)));
    }
    assert(terms@.take(i as int) =~= terms@);
    out
}

/// Validates an `UPDATE` statement against the catalog and builds its plan.
/// The statement is left as it was: every bound expression in the plan is new.
pub fn prepare_update_plan(schema: &Schema, body: &Update) -> (r: Result<Plan, UpdateError>)
    ensures
        r matches Ok(Plan::Update(p)) ==> update_plan(schema.tables@, *body) == Ok::<
            UpdatePlanView,
            UpdateError,
        >(p@),
        r matches Err(e) ==> update_plan(schema.tables@, *body) == Err::<UpdatePlanView, UpdateError>(
            e,
        ),
{
    if body.with.is_some() {
        return Err(UpdateError::WithNotSupported);
    }
    if body.or_conflict.is_some() {
        return Err(UpdateError::OnConflictNotSupported);
    }
    let table = match schema.get_table(body.tbl_name.as_str()) {
        Some(t) => t,
        None => return Err(UpdateError::NoSuchTable(body.tbl_name.clone())),
    };
    if !table.is_btree() {
        return Err(UpdateError::NotBTreeTable(body.tbl_name.clone()));
    }
    let iter_dir = match &body.order_by {
        Some(v) => if v.len() > 0 && matches!(v[0].order, Some(SortOrder::Desc)) {
            IterationDirection::Backwards
        } else {
            IterationDirection::Forwards
        },
        None => IterationDirection::Forwards,
    };
    let table_ref = TableReference {
        table: copy_table(table),
        identifier: body.tbl_name.clone(),
        op: Operation::Scan { iter_dir, index: None },
    };
    let set_clauses = resolve_assignments(table, &body.tbl_name, &body.sets)?;
    let returning = match &body.returning {
        Some(cols) => resolve_returning(table, cols)?,
        None => Vec::new(),
    };
    let order_by = match &body.order_by {
        Some(terms) => Some(copy_order_by(terms)),
        None => None,
    };
    let where_clause = parse_where(&body.where_clause, table, &returning)?;
    let (limit, offset) = match &body.limit {
        Some(l) => parse_limit(l)?,
        None => (None, None),
    };
    let mut table_references: Vec<TableReference> = Vec::new();
    table_references.push(table_ref);
    let plan = UpdatePlan {
        table_references,
        set_clauses,
        where_clause,
        returning,
        order_by,
        limit,
        offset,
        contains_constant_false_condition: false,
    };
    assert(plan@.table_references =~= update_plan(schema.tables@, *body)->Ok_0.table_references);
    Ok(Plan::Update(plan))
}

/// How the program is to be run.
#[derive(Clone, Copy, Debug, PartialEq, Eq)]
pub enum QueryMode {
    /// Run it.
    Normal,
    /// List its instructions.
    Explain,
}

/// Where one column of a rewritten row comes from.
#[derive(Clone, Copy, Debug, PartialEq, Eq)]
pub enum RecordSource {
    /// The value that the row holds in this column.
    Existing(usize),
    /// The value of this entry of the plan's `set_clauses`.
    Assigned(usize),
}

/// Which version of a row the `RETURNING` projection reads.
#[derive(Clone, Copy, Debug, PartialEq, Eq)]
pub enum ReturningRow {
    /// The row as it was before the statement rewrote it.
    BeforeUpdate,
    /// The row as the statement rewrote it.
    AfterUpdate,
}

/// What the row-rewriting program for an `UPDATE` is made from: the plan, the
/// layout of each rewritten record, the cursors that it opens, and the row
/// that `RETURNING` reads. For every statement, `RETURNING` reads the row
/// after it is rewritten, so an assigned column reports its new value.
#[derive(Clone, Debug, PartialEq, Eq)]
pub struct UpdateProgram {
    pub query_mode: QueryMode,
    pub num_cursors: usize,
    pub returning_row: ReturningRow,
    pub plan: UpdatePlan,
    /// For each column of the table, in order, where its new value comes from.
    pub record: Vec<RecordSource>,
}

/// The last assignment among `sets` to column `c`, if any.
pub open spec fn last_assignment(sets: Seq<(usize, Expr)>, c: int) -> Option<int>
    decreases sets.len(),
{
    if sets.len() == 0 {
        None
    } else if sets.last().0 == c {
        Some(sets.len() - 1)
    } else {
        last_assignment(sets.drop_last(), c)
    }
}

/// The layout of a rewritten record of `n` columns: a column that is
/// assigned takes the value of its last assignment; any other keeps its value.
pub open spec fn record_layout(n: nat, sets: Seq<(usize, Expr)>) -> Seq<RecordSource> {
    Seq::new(
        n,
        |c: int|
            match last_assignment(sets, c) {
                Some(k) => RecordSource::Assigned(k as usize),
                None => RecordSource::Existing(c as usize),
            },
    )
}

/// Builds the layout of a rewritten record of `n` columns.
fn build_record(n: usize, sets: &Vec<(usize, Expr)>) -> (r: Vec<RecordSource>)
    requires
        forall|k: int| 0 <= k < sets@.len() ==> (#[trigger] sets@[k]).0 < n,
    ensures
        r@ == record_layout(n as nat, sets@),
{
    let mut rec: Vec<RecordSource> = Vec::new();
    let mut c: usize = 0;
    while c < n
        invariant
            c <= n,
            rec@.len() == c,
            forall|j: int| 0 <= j < c ==> rec@[j] == RecordSource::Existing(j as usize),
        decreases n - c,
    {
        rec.push(RecordSource::Existing(c));
        c = c + 1;
    }
    assert(rec@ =~= record_layout(n as nat, sets@.take(0)));
    let mut k: usize = 0;
    while k < sets.len()
        invariant
            k <= sets@.len(),
            forall|j: int| 0 <= j < sets@.len() ==> (#[trigger] sets@[j]).0 < n,
            rec@ == record_layout(n as nat, sets@.take(k as int)),
        decreases sets@.len() - k,
    {
        let col = sets[k].0;
        rec.set(col, RecordSource::Assigned(k));
        proof {
            let t = sets@.take(k + 1);
            assert(t.drop_last() =~= sets@.take(k as int));
            assert(t.last() == sets@[k as int]);
        }
        k = k + 1;
        assert(rec@ =~= record_layout(n as nat, sets@.take(k as int)));
    }
    assert(sets@.take(k as int) =~= sets@);
    rec
}

/// Each resolved assignment targets a declared column.
proof fn lemma_assignments_in_range(table: Table, tbl_name: String, sets: Seq<Assignment>)
    ensures
        try_map(sets, assignment_resolver(table, tbl_name)) matches Ok(r) ==> forall|k: int|
            0 <= k < r.len() ==> (#[trigger] r[k]).0 < table_columns(table).len(),
    decreases sets.len(),
{
    if sets.len() > 0 {
        lemma_assignments_in_range(table, tbl_name, sets.drop_last());
        lemma_column_index_bounds(table_columns(table), sets.last().col_name@, 0);
    }
}

/// Plans an `UPDATE` statement and lays out the program that carries it
/// out: one write cursor over the table, and for each column of a rewritten
/// row the source of its value.
pub fn translate_update(query_mode: QueryMode, schema: &Schema, body: &Update) -> (r: Result<
    UpdateProgram,
    UpdateError,
>)
    ensures
        r matches Ok(p) ==> update_plan(schema.tables@, *body) == Ok::<UpdatePlanView, UpdateError>(
            p.plan@,
        ) && p.query_mode == query_mode && p.num_cursors == 1 && p.returning_row
            == ReturningRow::AfterUpdate && p.record@ == record_layout(
            p.plan@.table_references[0].table.columns.len(),
            p.plan@.set_clauses,
        ),
        r matches Err(e) ==> update_plan(schema.tables@, *body) == Err::<UpdatePlanView, UpdateError>(
            e,
        ),
{
    let Plan::Update(plan) = prepare_update_plan(schema, body)?;
    proof {
        let t = lookup_table(schema.tables@, body.tbl_name@)->Some_0;
        lemma_assignments_in_range(t, body.tbl_name, body.sets@);
        assert(plan@.table_references.len() == 1);
        assert(plan.table_references@.len() == 1);
        assert(plan.table_references@[0]@ == plan@.table_references[0]);
    }
    let n = plan.table_references[0].table.columns().len();
    let record = build_record(n, &plan.set_clauses);
    Ok(UpdateProgram { query_mode, num_cursors: 1, returning_row: ReturningRow::AfterUpdate, plan, record })
}

} // verus!
