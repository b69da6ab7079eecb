//! The parsed form of an `UPDATE` statement, as handed over by the SQL parser.
use vstd::prelude::*;

verus! {

/// A literal value.
#[derive(Clone, Debug, PartialEq, Eq)]
pub enum Literal {
    /// A number, as written.
    Numeric(String),
    /// A string, without its quotes.
    String(String),
    /// A blob, as its hexadecimal digits.
    Blob(String),
    /// A keyword used as a value.
    Keyword(String),
    /// `NULL`.
    Null,
    /// `CURRENT_DATE`
    CurrentDate,
    /// `CURRENT_TIME`
    CurrentTime,
    /// `CURRENT_TIMESTAMP`
    CurrentTimestamp,
}

/// A prefix operator.
#[derive(Clone, Copy, Debug, PartialEq, Eq)]
pub enum UnaryOperator {
    /// `~`
    BitwiseNot,
    /// `-`
    Negative,
    /// `NOT`
    Not,
    /// `+`
    Positive,
}

/// An infix operator.
#[derive(Clone, Copy, Debug, PartialEq, Eq)]
pub enum Operator {
    Add,
    And,
    /// `->`
    ArrowRight,
    /// `->>`
    ArrowRightShift,
    BitwiseAnd,
    BitwiseOr,
    BitwiseNot,
    /// `||`
    Concat,
    Equals,
    Divide,
    Greater,
    GreaterEquals,
    Is,
    IsNot,
    LeftShift,
    Less,
    LessEquals,
    Modulus,
    Multiply,
    NotEquals,
    Or,
    RightShift,
    Subtract,
}

/// The operator of a pattern match.
#[derive(Clone, Copy, Debug, PartialEq, Eq)]
pub enum LikeOperator {
    Glob,
    Like,
    Match,
    Regexp,
}

/// `DISTINCT` or `ALL` in a function call.
#[derive(Clone, Copy, Debug, PartialEq, Eq)]
pub enum Distinctness {
    Distinct,
    All,
}

/// The kind of a compound expression, with what it holds besides its
/// operands; the operands are the node's children, in the order given here.
#[derive(Clone, Debug, PartialEq, Eq)]
pub enum NodeKind {
    /// `lhs [NOT] BETWEEN start AND end`: lhs, start, end.
    Between { not: bool },
    /// `CASE [base] WHEN .. THEN .. [ELSE e] END`: the base if any, each
    /// `WHEN` and its `THEN` in turn, the `ELSE` expression if any.
    Case { has_base: bool, has_else: bool },
    /// `CAST(e AS type)`: e.
    Cast { target_type: Option<String> },
    /// `e COLLATE name`: e.
    Collate(String),
    /// `name([DISTINCT | ALL] args)`: the arguments.
    FunctionCall { name: String, distinctness: Option<Distinctness> },
    /// `name(*)`: none.
    FunctionCallStar { name: String },
    /// `lhs [NOT] IN (list)`: lhs, then the list.
    InList { not: bool },
    /// `e ISNULL`: e.
    IsNull,
    /// `e NOTNULL`: e.
    NotNull,
    /// `lhs [NOT] LIKE rhs [ESCAPE e]`: lhs, rhs, the escape if any.
    Like { not: bool, op: LikeOperator, has_escape: bool },
    /// `(e1, e2, ..)`: the expressions.
    Parenthesized,
}

/// An expression. `Id`, `Qualified` and `DoublyQualified` are names as
/// written; `Column` is a name that has been bound to a column of a table in
/// scope.
#[derive(Debug, PartialEq, Eq)]
pub enum Expr {
    /// A bare identifier.
    Id(String),
    /// `table.column`
    Qualified(String, String),
    /// `schema.table.column`
    DoublyQualified(String, String, String),
    /// A literal.
    Literal(Literal),
    /// A bound column: the index of the table in scope, and of the column in it.
    Column { table: usize, column: usize, is_rowid_alias: bool },
    /// A bound parameter (`?`, `?1`, `:name`), as written.
    Variable(String),
    /// A prefix operation.
    Unary(UnaryOperator, Box<Expr>),
    /// An infix operation.
    Binary(Box<Expr>, Operator, Box<Expr>),
    /// Any other compound expression, with its operands.
    Node(NodeKind, ExprList),
}

/// A list of expressions.
#[derive(Debug, PartialEq, Eq)]
pub enum ExprList {
    Nil,
    Cons(Box<Expr>, Box<ExprList>),
}

/// The expressions of a list, in order.
pub open spec fn list_seq(l: ExprList) -> Seq<Expr>
    decreases l,
{
    match l {
        ExprList::Nil => Seq::empty(),
        ExprList::Cons(h, t) => seq![*h] + list_seq(*t),
    }
}

/// The list of the expressions of `v`, in order.
pub fn expr_list(v: Vec<Expr>) -> (r: ExprList)
    ensures
        list_seq(r) == v@,
{
    let ghost orig = v@;
    let mut v = v;
    let mut acc = ExprList::Nil;
    while v.len() > 0
        invariant
            v@ == orig.take(v@.len() as int),
            v@.len() <= orig.len(),
            list_seq(acc) == orig.skip(v@.len() as int),
        decreases v@.len(),
    {
        let e = v.pop().unwrap();
        let ghost n = v@.len() as int;
        acc = ExprList::Cons(Box::new(e), Box::new(acc));
        assert(list_seq(acc) =~= orig.skip(n));
        assert(v@ =~= orig.take(n));
    }
    assert(orig.skip(0) =~= orig);
    acc
}

/// A copy of a literal.
pub fn copy_literal(l: &Literal) -> (r: Literal)
    ensures
        r == *l,
{
    match l {
        Literal::Numeric(s) => Literal::Numeric(s.clone()),
        Literal::String(s) => Literal::String(s.clone()),
        Literal::Blob(s) => Literal::Blob(s.clone()),
        Literal::Keyword(s) => Literal::Keyword(s.clone()),
        Literal::Null => Literal::Null,
        Literal::CurrentDate => Literal::CurrentDate,
        Literal::CurrentTime => Literal::CurrentTime,
        Literal::CurrentTimestamp => Literal::CurrentTimestamp,
    }
}

/// A copy of the kind of a compound expression.
pub fn copy_node_kind(k: &NodeKind) -> (r: NodeKind)
    ensures
        r == *k,
{
    match k {
        NodeKind::Between { not } => NodeKind::Between { not: *not },
        NodeKind::Case { has_base, has_else } => NodeKind::Case {
            has_base: *has_base,
            has_else: *has_else,
        },
        NodeKind::Cast { target_type } => NodeKind::Cast {
            target_type: match target_type {
                Some(t) => Some(t.clone()),
                None => None,
            },
        },
        NodeKind::Collate(c) => NodeKind::Collate(c.clone()),
        NodeKind::FunctionCall { name, distinctness } => NodeKind::FunctionCall {
            name: name.clone(),
            distinctness: *distinctness,
        },
        NodeKind::FunctionCallStar { name } => NodeKind::FunctionCallStar { name: name.clone() },
        NodeKind::InList { not } => NodeKind::InList { not: *not },
        NodeKind::IsNull => NodeKind::IsNull,
        NodeKind::NotNull => NodeKind::NotNull,
        NodeKind::Like { not, op, has_escape } => NodeKind::Like {
            not: *not,
            op: *op,
            has_escape: *has_escape,
        },
        NodeKind::Parenthesized => NodeKind::Parenthesized,
    }
}

/// A deep copy of an expression.
pub fn copy_expr(e: &Expr) -> (r: Expr)
    ensures
        r == *e,
    decreases e,
{
    match e {
        Expr::Id(s) => Expr::Id(s.clone()),
        Expr::Qualified(t, c) => Expr::Qualified(t.clone(), c.clone()),
        Expr::DoublyQualified(d, t, c) => Expr::DoublyQualified(d.clone(), t.clone(), c.clone()),
        Expr::Literal(l) => Expr::Literal(copy_literal(l)),
        Expr::Column { table, column, is_rowid_alias } => Expr::Column {
            table: *table,
            column: *column,
            is_rowid_alias: *is_rowid_alias,
        },
        Expr::Variable(v) => Expr::Variable(v.clone()),
        Expr::Unary(op, inner) => Expr::Unary(*op, Box::new(copy_expr(inner))),
        Expr::Binary(l, op, r) => Expr::Binary(Box::new(copy_expr(l)), *op, Box::new(copy_expr(r))),
        Expr::Node(k, args) => Expr::Node(copy_node_kind(k), copy_list(args)),
    }
}

/// A deep copy of a list of expressions.
pub fn copy_list(l: &ExprList) -> (r: ExprList)
    ensures
        r == *l,
    decreases l,
{
    match l {
        ExprList::Nil => ExprList::Nil,
        ExprList::Cons(h, t) => ExprList::Cons(Box::new(copy_expr(h)), Box::new(copy_list(t))),
    }
}

impl Clone for Expr {
    fn clone(&self) -> (r: Self)
        ensures
            r == *self,
    {
        copy_expr(self)
    }
}

impl Clone for ExprList {
    fn clone(&self) -> (r: Self)
        ensures
            r == *self,
    {
        copy_list(self)
    }
}

/// `ASC` or `DESC`.
#[derive(Clone, Copy, Debug, PartialEq, Eq)]
pub enum SortOrder {
    Asc,
    Desc,
}

/// One term of an `ORDER BY` clause.
#[derive(Clone, Debug, PartialEq, Eq)]
pub struct SortedColumn {
    pub expr: Expr,
    pub order: Option<SortOrder>,
}

/// The alias of a result column.
#[derive(Clone, Debug, PartialEq, Eq)]
pub enum As {
    /// `expr AS name`
    As(String),
    /// `expr name`
    Elided(String),
}

/// One column of a `RETURNING` clause.
#[derive(Clone, Debug, PartialEq, Eq)]
pub enum ResultColumn {
    /// An expression with an optional alias.
    Expr(Expr, Option<As>),
    /// `*`
    Star,
    /// `table.*`
    TableStar(String),
}

/// A conflict resolution strategy (`UPDATE OR ...`).
#[derive(Clone, Copy, Debug, PartialEq, Eq)]
pub enum ResolveType {
    Rollback,
    Abort,
    Fail,
    Ignore,
    Replace,
}

/// A `WITH` clause: the names of its common table expressions.
#[derive(Clone, Debug, PartialEq, Eq)]
pub struct With {
    pub recursive: bool,
    pub tables: Vec<String>,
}

/// One assignment of a `SET` clause.
#[derive(Clone, Debug, PartialEq, Eq)]
pub struct Assignment {
    pub col_name: String,
    pub expr: Expr,
}

/// `LIMIT expr [OFFSET expr]`
#[derive(Clone, Debug, PartialEq, Eq)]
pub struct Limit {
    pub expr: Expr,
    pub offset: Option<Expr>,
}

/// An `UPDATE` statement.
#[derive(Clone, Debug, PartialEq, Eq)]
pub struct Update {
    pub with: Option<With>,
    pub or_conflict: Option<ResolveType>,
    pub tbl_name: String,
    pub sets: Vec<Assignment>,
    pub where_clause: Option<Expr>,
    pub returning: Option<Vec<ResultColumn>>,
    pub order_by: Option<Vec<SortedColumn>>,
    pub limit: Option<Limit>,
}

} // verus!
