//! One structured type per SQL clause.

use vstd::prelude::*;

use crate::expr::Expr;
use crate::item::Cte;
use crate::item::Field;
use crate::item::Ident;
use crate::item::Order;
use crate::item::Row;
use crate::item::Table;
use crate::item::TableRef;

verus! {

/// A `WITH` clause: the recursive flag and the list of CTE entries.
#[derive(Debug, PartialEq, Eq)]
pub struct With(pub bool, pub Vec<Cte>);

/// The mathematical model of a `WITH` clause.
#[verifier::ext_equal]
pub ghost struct WithV {
    pub recursive: bool,
    pub ctes: Seq<crate::item::CteV>,
}

impl View for With {
    type V = WithV;

    open spec fn view(&self) -> WithV {
        WithV { recursive: self.0, ctes: self.1@.map_values(|c: Cte| c@) }
    }
}

/// A `SELECT` clause: the list of selected fields.
#[derive(Debug, PartialEq, Eq)]
pub struct Select(pub Vec<Field>);

/// A `FROM` clause: the list of source tables.
#[derive(Debug, PartialEq, Eq)]
pub struct From(pub Vec<Table>);

/// A `WHERE` clause: the filter condition.
#[derive(Debug, PartialEq, Eq)]
pub struct Where(pub Expr);

/// A `GROUP BY` clause: the list of grouping expressions.
#[derive(Debug, PartialEq, Eq)]
pub struct GroupBy(pub Vec<Expr>);

/// A `HAVING` clause: the group filter condition.
#[derive(Debug, PartialEq, Eq)]
pub struct Having(pub Expr);

/// An `ORDER BY` clause: the list of sort entries.
#[derive(Debug, PartialEq, Eq)]
pub struct OrderBy(pub Vec<Order>);

/// An `INSERT INTO` clause: the target table and its column list.
#[derive(Clone, Debug, PartialEq, Eq)]
pub struct Insert(pub TableRef, pub Vec<Ident>);

/// A `VALUES` clause: the list of rows.
#[derive(Debug, PartialEq, Eq)]
pub struct Values(pub Vec<Row>);

/// A `RETURNING` clause: the list of returned fields.
#[derive(Debug, PartialEq, Eq)]
pub struct Returning(pub Vec<Field>);

/// A `DELETE FROM` clause: the target table.
#[derive(Clone, Debug, PartialEq, Eq)]
pub struct Delete(pub TableRef);

/// An `UPDATE` clause: the target table.
#[derive(Clone, Debug, PartialEq, Eq)]
pub struct Update(pub TableRef);

/// A `SET` clause: the list of column assignments.
#[derive(Debug, PartialEq, Eq)]
pub struct SetClause(pub Vec<(Ident, Expr)>);

/// A `LIMIT` clause: the row count.
#[derive(Clone, Copy, Debug, PartialEq, Eq, Structural)]
pub struct Limit(pub u32);

/// An `OFFSET` clause: the number of rows skipped.
#[derive(Clone, Copy, Debug, PartialEq, Eq, Structural)]
pub struct Offset(pub u32);

impl Clone for With {
    fn clone(&self) -> Self
        decreases self,
    {
        With(self.0, crate::item::clone_ctes(&self.1))
    }
}

impl Clone for Select {
    fn clone(&self) -> Self
        decreases self,
    {
        Select(crate::item::clone_fields(&self.0))
    }
}

impl Clone for From {
    fn clone(&self) -> Self
        decreases self,
    {
        From(crate::item::clone_tables(&self.0))
    }
}

impl Clone for Where {
    fn clone(&self) -> Self
        decreases self,
    {
        Where(self.0.clone())
    }
}

impl Clone for GroupBy {
    fn clone(&self) -> Self
        decreases self,
    {
        GroupBy(crate::expr::clone_exprs(&self.0))
    }
}

impl Clone for Having {
    fn clone(&self) -> Self
        decreases self,
    {
        Having(self.0.clone())
    }
}

impl Clone for OrderBy {
    fn clone(&self) -> Self
        decreases self,
    {
        OrderBy(crate::item::clone_orders(&self.0))
    }
}

impl Clone for Values {
    fn clone(&self) -> Self
        decreases self,
    {
        Values(crate::item::clone_rows(&self.0))
    }
}

impl Clone for Returning {
    fn clone(&self) -> Self
        decreases self,
    {
        Returning(crate::item::clone_fields(&self.0))
    }
}

impl Clone for SetClause {
    fn clone(&self) -> Self
        decreases self,
    {
        SetClause(crate::item::clone_sets(&self.0))
    }
}

} // verus!
