//! The schema catalog: tables and their declared columns.
use vstd::prelude::*;
use crate::ident::{ident_matches, names_match};

verus! {

/// A declared column of a table.
#[derive(Clone, Debug, PartialEq, Eq)]
pub struct Column {
    pub name: Option<String>,
    /// Whether the column is an alias of the table's row key.
    pub is_rowid_alias: bool,
}

/// A table stored in a B-tree.
#[derive(Clone, Debug, PartialEq, Eq)]
pub struct BTreeTable {
    pub name: String,
    pub columns: Vec<Column>,
}

/// A table whose rows a module computes.
#[derive(Clone, Debug, PartialEq, Eq)]
pub struct VirtualTable {
    pub name: String,
    pub columns: Vec<Column>,
}

/// A table of the catalog.
#[derive(Clone, Debug, PartialEq, Eq)]
pub enum Table {
    BTree(BTreeTable),
    Virtual(VirtualTable),
}

/// The catalog: the tables in the order in which they were added.
#[derive(Clone, Debug, PartialEq, Eq)]
pub struct Schema {
    pub tables: Vec<Table>,
}

/// The mathematical value of a table: its kind, name and columns.
pub struct TableView {
    pub is_btree: bool,
    pub name: String,
    pub columns: Seq<Column>,
}

impl View for Table {
    type V = TableView;

    open spec fn view(&self) -> TableView {
        TableView {
            is_btree: self is BTree,
            name: table_name(*self),
            columns: table_columns(*self),
        }
    }
}

/// The declared name of a table.
pub open spec fn table_name(t: Table) -> String {
    match t {
        Table::BTree(b) => b.name,
        Table::Virtual(v) => v.name,
    }
}

/// The declared columns of a table.
pub open spec fn table_columns(t: Table) -> Seq<Column> {
    match t {
        Table::BTree(b) => b.columns@,
        Table::Virtual(v) => v.columns@,
    }
}

/// Whether the column is declared under a name that `name` names.
pub open spec fn column_named(c: Column, name: Seq<char>) -> bool {
    match c.name {
        Some(n) => names_match(name, n@),
        None => false,
    }
}

/// The position of the first table at or after `i` that `name` names.
pub open spec fn table_index_from(ts: Seq<Table>, name: Seq<char>, i: int) -> Option<int>
    decreases ts.len() - i,
{
    if i < 0 || i >= ts.len() {
        None
    } else if names_match(name, table_name(ts[i])@) {
        Some(i)
    } else {
        table_index_from(ts, name, i + 1)
    }
}

/// The table that `name` names: the first one added under a matching name.
pub open spec fn lookup_table(ts: Seq<Table>, name: Seq<char>) -> Option<Table> {
    match table_index_from(ts, name, 0) {
        Some(i) => Some(ts[i]),
        None => None,
    }
}

/// The position of the first column at or after `i` that `name` names.
pub open spec fn column_index_from(cs: Seq<Column>, name: Seq<char>, i: int) -> Option<int>
    decreases cs.len() - i,
{
    if i < 0 || i >= cs.len() {
        None
    } else if column_named(cs[i], name) {
        Some(i)
    } else {
        column_index_from(cs, name, i + 1)
    }
}

/// The position of the first declared column that `name` names.
pub open spec fn lookup_column(cs: Seq<Column>, name: Seq<char>) -> Option<int> {
    column_index_from(cs, name, 0)
}

pub proof fn lemma_column_index_bounds(cs: Seq<Column>, name: Seq<char>, i: int)
    ensures
        column_index_from(cs, name, i) matches Some(k) ==> i <= k < cs.len() && column_named(
            cs[k],
            name,
        ),
    decreases cs.len() - i,
{
    if 0 <= i < cs.len() && !column_named(cs[i], name) {
        lemma_column_index_bounds(cs, name, i + 1);
    }
}

impl Table {
    /// The declared name.
    pub fn get_name(&self) -> (r: &String)
        ensures
            *r == table_name(*self),
    {
        match self {
            Table::BTree(b) => &b.name,
            Table::Virtual(v) => &v.name,
        }
    }

    /// The declared columns, in order.
    pub fn columns(&self) -> (r: &Vec<Column>)
        ensures
            r@ == table_columns(*self),
    {
        match self {
            Table::BTree(b) => &b.columns,
            Table::Virtual(v) => &v.columns,
        }
    }

    /// The B-tree table, if this is one.
    pub fn btree(&self) -> (r: Option<&BTreeTable>)
        ensures
            self matches Table::BTree(t) ==> r == Some(t),
            self is Virtual ==> r is None,
    {
        match self {
            Table::BTree(b) => Some(b),
            Table::Virtual(_) => None,
        }
    }

    /// Whether this is a B-tree table.
    pub fn is_btree(&self) -> (r: bool)
        ensures
            r == self is BTree,
    {
        matches!(self, Table::BTree(_))
    }
}

/// The position of the first declared column that `name` names.
pub fn find_column(cols: &Vec<Column>, name: &str) -> (r: Option<usize>)
    ensures
        r matches Some(k) ==> lookup_column(cols@, name@) == Some(k as int) && k < cols@.len(),
        r is None ==> lookup_column(cols@, name@) is None,
{
    proof {
        lemma_column_index_bounds(cols@, name@, 0);
    }
    let mut i: usize = 0;
    while i < cols.len()
        invariant
            i <= cols@.len(),
            lookup_column(cols@, name@) == column_index_from(cols@, name@, i as int),
        decreases cols@.len() - i,
    {
        let found = match &cols[i].name {
            Some(n) => ident_matches(name, n.as_str()),
            None => false,
        };
        if found {
            return Some(i);
        }
        i = i + 1;
    }
    None
}

/// A copy of a column declaration.
pub fn copy_column(c: &Column) -> (r: Column)
    ensures
        r == *c,
{
    let name = match &c.name {
        Some(n) => Some(n.clone()),
        None => None,
    };
    Column { name, is_rowid_alias: c.is_rowid_alias }
}

/// A copy of a list of column declarations.
pub fn copy_columns(cs: &Vec<Column>) -> (r: Vec<Column>)
    ensures
        r@ == cs@,
{
    let mut out: Vec<Column> = Vec::new();
    let mut i: usize = 0;
    while i < cs.len()
        invariant
            i <= cs@.len(),
            out@ == cs@.take(i as int),
        decreases cs@.len() - i,
    {
        out.push(copy_column(&cs[i]));
        i = i + 1;
        assert(out@ =~= cs@.take(i as int));
    }
    assert(cs@.take(i as int) =~= cs@);
    out
}

/// A copy of a table.
pub fn copy_table(t: &Table) -> (r: Table)
    ensures
        r@ == t@,
{
    match t {
        Table::BTree(b) => Table::BTree(BTreeTable { name: b.name.clone(), columns: copy_columns(&b.columns) }),
        Table::Virtual(v) => Table::Virtual(VirtualTable { name: v.name.clone(), columns: copy_columns(&v.columns) }),
    }
}

impl Schema {
    /// An empty catalog.
    pub fn new() -> (r: Schema)
        ensures
            r.tables@.len() == 0,
    {
        Schema { tables: Vec::new() }
    }

    /// Adds a table after those already there.
    pub fn add_table(&mut self, table: Table)
        ensures
            final(self).tables@ == old(self).tables@.push(table),
    {
        self.tables.push(table);
    }

    /// The table that `name` names, matched without its quotes and without
    /// regard to ASCII case; the first one added wins.
    pub fn get_table(&self, name: &str) -> (r: Option<&Table>)
        ensures
            r matches Some(t) ==> lookup_table(self.tables@, name@) == Some(*t),
            r is None ==> lookup_table(self.tables@, name@) is None,
    {
        let mut i: usize = 0;
        while i < self.tables.len()
            invariant
                i <= self.tables@.len(),
                table_index_from(self.tables@, name@, 0) == table_index_from(
                    self.tables@,
                    name@,
                    i as int,
                ),
            decreases self.tables@.len() - i,
        {
            if ident_matches(name, self.tables[i].get_name().as_str()) {
                return Some(&self.tables[i]);
            }
            i = i + 1;
        }
        None
    }
}

} // verus!
