//! Identifiers, column / table / function references, and the small
//! composite items a statement is assembled from.

use vstd::prelude::*;

use crate::expr::clone_exprs;
use crate::expr::Expr;
use crate::stmt::Stmt;
use crate::table_expr::TableExpr;

verus! {

/// A plain name.
#[derive(Clone, Debug, PartialEq, Eq)]
pub struct Ident(pub String);

impl Ident {
    /// Copy a borrowed name into an identifier.
    pub fn new(s: &str) -> (r: Ident)
        ensures
            r.0@ == s@,
    {
        Ident(String::from_str(s))
    }
}

/// A column reference: bare, table-qualified, or schema-and-table-qualified.
#[derive(Clone, Debug, PartialEq, Eq)]
pub enum ColumnRef {
    Column(Ident),
    TableColumn(Ident, Ident),
    SchemaTableColumn(Ident, Ident, Ident),
}

impl ColumnRef {
    /// A bare column name.
    pub fn column(name: &str) -> (r: ColumnRef)
        ensures
            r matches ColumnRef::Column(c) && c.0@ == name@,
    {
        ColumnRef::Column(Ident::new(name))
    }

    /// A table-qualified column name.
    pub fn table_column(table: &str, name: &str) -> (r: ColumnRef)
        ensures
            r matches ColumnRef::TableColumn(t, c) && t.0@ == table@ && c.0@ == name@,
    {
        ColumnRef::TableColumn(Ident::new(table), Ident::new(name))
    }

    /// A schema-and-table-qualified column name.
    pub fn schema_table_column(schema: &str, table: &str, name: &str) -> (r: ColumnRef)
        ensures
            r matches ColumnRef::SchemaTableColumn(s, t, c) && s.0@ == schema@ && t.0@ == table@
                && c.0@ == name@,
    {
        ColumnRef::SchemaTableColumn(Ident::new(schema), Ident::new(table), Ident::new(name))
    }
}

/// A table reference: bare or schema-qualified.
#[derive(Clone, Debug, PartialEq, Eq)]
pub enum TableRef {
    Table(Ident),
    SchemaTable(Ident, Ident),
}

impl TableRef {
    /// A bare table name.
    pub fn table(name: &str) -> (r: TableRef)
        ensures
            r matches TableRef::Table(t) && t.0@ == name@,
    {
        TableRef::Table(Ident::new(name))
    }

    /// A schema-qualified table name.
    pub fn schema_table(schema: &str, name: &str) -> (r: TableRef)
        ensures
            r matches TableRef::SchemaTable(s, t) && s.0@ == schema@ && t.0@ == name@,
    {
        TableRef::SchemaTable(Ident::new(schema), Ident::new(name))
    }
}

/// A function reference: bare or schema-qualified.
#[derive(Clone, Debug, PartialEq, Eq)]
pub enum FuncRef {
    Func(Ident),
    SchemaFunc(Ident, Ident),
}

impl FuncRef {
    /// A bare function name.
    pub fn func(name: &str) -> (r: FuncRef)
        ensures
            r matches FuncRef::Func(f) && f.0@ == name@,
    {
        FuncRef::Func(Ident::new(name))
    }

    /// A schema-qualified function name.
    pub fn schema_func(schema: &str, name: &str) -> (r: FuncRef)
        ensures
            r matches FuncRef::SchemaFunc(s, f) && s.0@ == schema@ && f.0@ == name@,
    {
        FuncRef::SchemaFunc(Ident::new(schema), Ident::new(name))
    }
}

/// A sort direction inside `ORDER BY`.
#[derive(Clone, Copy, Debug, PartialEq, Eq, Structural)]
pub enum Sort {
    Asc,
    Desc,
}

/// One `ORDER BY` entry: an expression with an optional sort direction.
#[derive(Debug, PartialEq, Eq)]
pub struct Order(pub Expr, pub Option<Sort>);

/// A function call expression: a function reference applied to arguments.
#[derive(Debug, PartialEq, Eq)]
pub struct FuncCall(pub FuncRef, pub Vec<Expr>);

/// One entry of a `SELECT` or `RETURNING` list: an expression with an
/// optional alias.
#[derive(Debug, PartialEq, Eq)]
pub struct Field {
    pub expr: Expr,
    pub alias: Option<Ident>,
}

impl Field {
    /// A field without an alias.
    pub fn new(expr: Expr) -> (r: Field)
        ensures
            r == (Field { expr, alias: None }),
    {
        Field { expr, alias: None }
    }
}

/// One entry of a `FROM` list: a table expression with an optional alias.
#[derive(Debug, PartialEq, Eq)]
pub struct Table {
    pub table: TableExpr,
    pub alias: Option<Ident>,
}

impl Table {
    /// A table entry without an alias.
    pub fn new(table: TableExpr) -> (r: Table)
        ensures
            r == (Table { table, alias: None }),
    {
        Table { table, alias: None }
    }
}

/// One `VALUES` tuple: an ordered row of expressions.
#[derive(Debug, PartialEq, Eq)]
pub struct Row(pub Vec<Expr>);

/// One `WITH` entry: a name, an optional column-label list, and the
/// statement it abbreviates.
#[derive(Debug, PartialEq, Eq)]
pub struct Cte {
    pub name: Ident,
    pub columns: Vec<Ident>,
    pub stmt: Stmt,
}

/// The mathematical model of a `WITH` entry.
#[verifier::ext_equal]
pub ghost struct CteV {
    pub name: Ident,
    pub columns: Seq<Ident>,
    pub stmt: Stmt,
}

impl View for Cte {
    type V = CteV;

    open spec fn view(&self) -> CteV {
        CteV { name: self.name, columns: self.columns@, stmt: self.stmt }
    }
}

impl Clone for Order {
    fn clone(&self) -> Self
        decreases self,
    {
        Order(self.0.clone(), self.1)
    }
}

impl Clone for FuncCall {
    fn clone(&self) -> Self
        decreases self,
    {
        FuncCall(self.0.clone(), clone_exprs(&self.1))
    }
}

impl Clone for Field {
    fn clone(&self) -> Self
        decreases self,
    {
        Field { expr: self.expr.clone(), alias: self.alias.clone() }
    }
}

impl Clone for Table {
    fn clone(&self) -> Self
        decreases self,
    {
        Table { table: self.table.clone(), alias: self.alias.clone() }
    }
}

impl Clone for Row {
    fn clone(&self) -> Self
        decreases self,
    {
        Row(clone_exprs(&self.0))
    }
}

impl Clone for Cte {
    fn clone(&self) -> Self
        decreases self,
    {
        Cte { name: self.name.clone(), columns: self.columns.clone(), stmt: self.stmt.clone() }
    }
}

/// Clone each entry of a field list.
#[verifier::loop_isolation(false)]
pub(crate) fn clone_fields(v: &Vec<Field>) -> Vec<Field>
    decreases v,
{
    let mut out: Vec<Field> = Vec::new();
    let n = v.len();
    let mut i: usize = 0;
    while i < n
        decreases n - i,
    {
        proof {
            vstd::std_specs::vec::axiom_vec_index_decreases(*v, i as int);
        }
        out.push(v[i].clone());
        i = i + 1;
    }
    out
}

/// Clone each entry of a table list.
#[verifier::loop_isolation(false)]
pub(crate) fn clone_tables(v: &Vec<Table>) -> Vec<Table>
    decreases v,
{
    let mut out: Vec<Table> = Vec::new();
    let n = v.len();
    let mut i: usize = 0;
    while i < n
        decreases n - i,
    {
        proof {
            vstd::std_specs::vec::axiom_vec_index_decreases(*v, i as int);
        }
        out.push(v[i].clone());
        i = i + 1;
    }
    out
}

/// Clone each entry of a sort list.
#[verifier::loop_isolation(false)]
pub(crate) fn clone_orders(v: &Vec<Order>) -> Vec<Order>
    decreases v,
{
    let mut out: Vec<Order> = Vec::new();
    let n = v.len();
    let mut i: usize = 0;
    while i < n
        decreases n - i,
    {
        proof {
            vstd::std_specs::vec::axiom_vec_index_decreases(*v, i as int);
        }
        out.push(v[i].clone());
        i = i + 1;
    }
    out
}

/// Clone each row of a row list.
#[verifier::loop_isolation(false)]
pub(crate) fn clone_rows(v: &Vec<Row>) -> Vec<Row>
    decreases v,
{
    let mut out: Vec<Row> = Vec::new();
    let n = v.len();
    let mut i: usize = 0;
    while i < n
        decreases n - i,
    {
        proof {
            vstd::std_specs::vec::axiom_vec_index_decreases(*v, i as int);
        }
        out.push(v[i].clone());
        i = i + 1;
    }
    out
}

/// Clone each entry of a CTE list.
#[verifier::loop_isolation(false)]
pub(crate) fn clone_ctes(v: &Vec<Cte>) -> Vec<Cte>
    decreases v,
{
    let mut out: Vec<Cte> = Vec::new();
    let n = v.len();
    let mut i: usize = 0;
    while i < n
        decreases n - i,
    {
        proof {
            vstd::std_specs::vec::axiom_vec_index_decreases(*v, i as int);
        }
        out.push(v[i].clone());
        i = i + 1;
    }
    out
}

/// Clone each assignment of a `SET` list.
#[verifier::loop_isolation(false)]
pub(crate) fn clone_sets(v: &Vec<(Ident, Expr)>) -> Vec<(Ident, Expr)>
    decreases v,
{
    let mut out: Vec<(Ident, Expr)> = Vec::new();
    let n = v.len();
    let mut i: usize = 0;
    while i < n
        decreases n - i,
    {
        proof {
            vstd::std_specs::vec::axiom_vec_index_decreases(*v, i as int);
        }
        out.push((v[i].0.clone(), v[i].1.clone()));
        i = i + 1;
    }
    out
}

} // verus!
