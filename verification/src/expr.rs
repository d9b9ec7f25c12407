//! The expression tree: the unit of computation inside clauses.

use vstd::prelude::*;

use crate::item::ColumnRef;
use crate::item::FuncCall;
use crate::stmt::data::Data;
use crate::value::Value;

verus! {

/// An SQL expression: a literal, a column reference, a function call, a
/// prefix / infix / postfix operator application, a parenthesised group, or
/// a scalar subquery.  Operator tokens are fixed static text.
#[derive(Debug, PartialEq, Eq)]
pub enum Expr {
    Column(ColumnRef),
    Literal(Value),
    FuncCall(FuncCall),
    Prefix(&'static str, Box<Expr>),
    Infix(Box<Expr>, &'static str, Box<Expr>),
    Postfix(Box<Expr>, &'static str),
    Paren(Box<Expr>),
    SubQuery(Box<Data>),
}

impl Expr {
    /// A bare column reference expression.
    pub fn column(name: &str) -> (r: Expr)
        ensures
            r matches Expr::Column(ColumnRef::Column(c)) && c.0@ == name@,
    {
        Expr::Column(ColumnRef::column(name))
    }

    /// A table-qualified column reference expression.
    pub fn table_column(table: &str, name: &str) -> (r: Expr)
        ensures
            r matches Expr::Column(ColumnRef::TableColumn(t, c)) && t.0@ == table@ && c.0@
                == name@,
    {
        Expr::Column(ColumnRef::table_column(table, name))
    }

    /// A schema-and-table-qualified column reference expression.
    pub fn schema_table_column(schema: &str, table: &str, name: &str) -> (r: Expr)
        ensures
            r matches Expr::Column(ColumnRef::SchemaTableColumn(s, t, c)) && s.0@ == schema@
                && t.0@ == table@ && c.0@ == name@,
    {
        Expr::Column(ColumnRef::schema_table_column(schema, table, name))
    }

    /// A literal expression holding the given value.
    pub fn literal(v: Value) -> (r: Expr)
        ensures
            r == Expr::Literal(v),
    {
        Expr::Literal(v)
    }

    /// A text literal expression, copying the borrowed string.
    pub fn text(s: &str) -> (r: Expr)
        ensures
            r matches Expr::Literal(Value::Text(t)) && t@ == s@,
    {
        Expr::Literal(Value::text(s))
    }
}

impl Clone for Expr {
    /// Cloning duplicates the structural skeleton; the copied leaf strings
    /// are opaque to the verifier, so nothing is claimed of the copy.
    fn clone(&self) -> Self
        decreases self,
    {
        match self {
            Expr::Column(c) => Expr::Column(c.clone()),
            Expr::Literal(v) => Expr::Literal(v.clone()),
            Expr::FuncCall(f) => Expr::FuncCall(f.clone()),
            Expr::Prefix(op, x) => Expr::Prefix(op, Box::new((**x).clone())),
            Expr::Infix(l, op, r) => Expr::Infix(
                Box::new((**l).clone()),
                op,
                Box::new((**r).clone()),
            ),
            Expr::Postfix(x, op) => Expr::Postfix(Box::new((**x).clone()), op),
            Expr::Paren(x) => Expr::Paren(Box::new((**x).clone())),
            Expr::SubQuery(q) => Expr::SubQuery(Box::new((**q).clone())),
        }
    }
}

/// Clone each expression of a list.
#[verifier::loop_isolation(false)]
pub(crate) fn clone_exprs(v: &Vec<Expr>) -> Vec<Expr>
    decreases v,
{
    let mut out: Vec<Expr> = Vec::new();
    let n = v.len();
    let mut i: usize = 0;
    while i < n
        decreases n - i,
    {
        proof {
            vstd::std_specs::vec::axiom_vec_index_decreases(*v, i as int);
        }
        out.push(v[i].clone());
        i = i + 1;
    }
    out
}

} // verus!
