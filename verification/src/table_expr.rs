//! The table-expression tree: the unit of composition inside `FROM`.

use vstd::prelude::*;

use crate::expr::Expr;
use crate::item::FuncCall;
use crate::item::TableRef;
use crate::stmt::data::Data;

verus! {

/// A table expression: a table reference, a function-valued table, one of
/// the eight join forms, or a table-valued subquery.
#[derive(Debug, PartialEq, Eq)]
pub enum TableExpr {
    TableRef(TableRef),
    FuncCall(FuncCall),
    Join(Box<TableExpr>, Box<TableExpr>, Expr),
    LeftJoin(Box<TableExpr>, Box<TableExpr>, Expr),
    RightJoin(Box<TableExpr>, Box<TableExpr>, Expr),
    FullJoin(Box<TableExpr>, Box<TableExpr>, Expr),
    NaturalJoin(Box<TableExpr>, Box<TableExpr>),
    NaturalLeftJoin(Box<TableExpr>, Box<TableExpr>),
    NaturalRightJoin(Box<TableExpr>, Box<TableExpr>),
    NaturalFullJoin(Box<TableExpr>, Box<TableExpr>),
    CrossJoin(Box<TableExpr>, Box<TableExpr>),
    SubQuery(Data),
}

impl TableExpr {
    /// A bare table reference.
    pub fn table(name: &str) -> (r: TableExpr)
        ensures
            r matches TableExpr::TableRef(TableRef::Table(t)) && t.0@ == name@,
    {
        TableExpr::TableRef(TableRef::table(name))
    }

    /// A schema-qualified table reference.
    pub fn schema_table(schema: &str, name: &str) -> (r: TableExpr)
        ensures
            r matches TableExpr::TableRef(TableRef::SchemaTable(s, t)) && s.0@ == schema@ && t.0@
                == name@,
    {
        TableExpr::TableRef(TableRef::schema_table(schema, name))
    }
}

impl Clone for TableExpr {
    fn clone(&self) -> Self
        decreases self,
    {
        match self {
            TableExpr::TableRef(r) => TableExpr::TableRef(r.clone()),
            TableExpr::FuncCall(f) => TableExpr::FuncCall(f.clone()),
            TableExpr::Join(l, r, c) => TableExpr::Join(
                Box::new((**l).clone()),
                Box::new((**r).clone()),
                c.clone(),
            ),
            TableExpr::LeftJoin(l, r, c) => TableExpr::LeftJoin(
                Box::new((**l).clone()),
                Box::new((**r).clone()),
                c.clone(),
            ),
            TableExpr::RightJoin(l, r, c) => TableExpr::RightJoin(
                Box::new((**l).clone()),
                Box::new((**r).clone()),
                c.clone(),
            ),
            TableExpr::FullJoin(l, r, c) => TableExpr::FullJoin(
                Box::new((**l).clone()),
                Box::new((**r).clone()),
                c.clone(),
            ),
            TableExpr::NaturalJoin(l, r) => TableExpr::NaturalJoin(
                Box::new((**l).clone()),
                Box::new((**r).clone()),
            ),
            TableExpr::NaturalLeftJoin(l, r) => TableExpr::NaturalLeftJoin(
                Box::new((**l).clone()),
                Box::new((**r).clone()),
            ),
            TableExpr::NaturalRightJoin(l, r) => TableExpr::NaturalRightJoin(
                Box::new((**l).clone()),
                Box::new((**r).clone()),
            ),
            TableExpr::NaturalFullJoin(l, r) => TableExpr::NaturalFullJoin(
                Box::new((**l).clone()),
                Box::new((**r).clone()),
            ),
            TableExpr::CrossJoin(l, r) => TableExpr::CrossJoin(
                Box::new((**l).clone()),
                Box::new((**r).clone()),
            ),
            TableExpr::SubQuery(q) => TableExpr::SubQuery(q.clone()),
        }
    }
}

} // verus!
