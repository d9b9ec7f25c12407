//! The `SELECT` statement builder.

use vstd::prelude::*;

use crate::clause;
use crate::clause::WithV;
use crate::expr::Expr;
use crate::item::CteV;
use crate::item::Field;
use crate::item::Ident;
use crate::item::Order;
use crate::item::Table;
use crate::ops::and_expr;
use crate::stmt::filtered;
use crate::stmt::with_add;
use crate::stmt::with_recursive;
use crate::stmt::Stmt;

verus! {

/// A `SELECT` statement: an optional `WITH` list, the field list, and the
/// optional `FROM`, `WHERE`, `GROUP BY`, `HAVING` and `ORDER BY` clauses.
#[derive(Debug, PartialEq, Eq)]
pub struct Select {
    pub with: Option<clause::With>,
    pub fields: clause::Select,
    pub tables: Option<clause::From>,
    pub filter: Option<clause::Where>,
    pub groups: Option<clause::GroupBy>,
    pub having: Option<clause::Having>,
    pub orders: Option<clause::OrderBy>,
}

/// The mathematical model of a `SELECT` statement.
#[verifier::ext_equal]
pub ghost struct SelectV {
    pub with: Option<WithV>,
    pub fields: Seq<Field>,
    pub tables: Option<Seq<Table>>,
    pub filter: Option<Expr>,
    pub groups: Option<Seq<Expr>>,
    pub having: Option<Expr>,
    pub orders: Option<Seq<Order>>,
}

impl View for Select {
    type V = SelectV;

    open spec fn view(&self) -> SelectV {
        SelectV {
            with: match self.with {
                None => None,
                Some(w) => Some(w@),
            },
            fields: self.fields.0@,
            tables: match self.tables {
                None => None,
                Some(t) => Some(t.0@),
            },
            filter: match self.filter {
                None => None,
                Some(w) => Some(w.0),
            },
            groups: match self.groups {
                None => None,
                Some(g) => Some(g.0@),
            },
            having: match self.having {
                None => None,
                Some(h) => Some(h.0),
            },
            orders: match self.orders {
                None => None,
                Some(o) => Some(o.0@),
            },
        }
    }
}

/// Extend the field list.
pub open spec fn sel_select(s: SelectV, fields: Seq<Field>) -> SelectV {
    SelectV { fields: s.fields + fields, ..s }
}

/// Extend the `FROM` list, creating it on first use.
pub open spec fn sel_from(s: SelectV, tables: Seq<Table>) -> SelectV {
    SelectV {
        tables: match s.tables {
            None => Some(tables),
            Some(t) => Some(t + tables),
        },
        ..s
    }
}

/// AND-combine a condition into the `WHERE` clause.
pub open spec fn sel_filter(s: SelectV, e: Expr) -> SelectV {
    SelectV { filter: filtered(s.filter, e), ..s }
}

/// Extend the `GROUP BY` list, creating it on first use.
pub open spec fn sel_group_by(s: SelectV, groups: Seq<Expr>) -> SelectV {
    SelectV {
        groups: match s.groups {
            None => Some(groups),
            Some(g) => Some(g + groups),
        },
        ..s
    }
}

/// AND-combine a condition into the `HAVING` clause.
pub open spec fn sel_having(s: SelectV, e: Expr) -> SelectV {
    SelectV { having: filtered(s.having, e), ..s }
}

/// Extend the `ORDER BY` list, creating it on first use.
pub open spec fn sel_order_by(s: SelectV, orders: Seq<Order>) -> SelectV {
    SelectV {
        orders: match s.orders {
            None => Some(orders),
            Some(o) => Some(o + orders),
        },
        ..s
    }
}

impl Select {
    /// Add more fields to the `SELECT` list; repeated calls extend it.
    pub fn select(self, fields: Vec<Field>) -> (r: Select)
        ensures
            r@ == sel_select(self@, fields@),
    {
        let Select { with, fields: clause::Select(mut f), tables, filter, groups, having, orders } =
            self;
        let mut more = fields;
        f.append(&mut more);
        Select { with, fields: clause::Select(f), tables, filter, groups, having, orders }
    }

    /// Add more tables to the `FROM` list; repeated calls extend it.
    pub fn from(self, tables: Vec<Table>) -> (r: Select)
        ensures
            r@ == sel_from(self@, tables@),
    {
        let Select { with, fields, tables: t, filter, groups, having, orders } = self;
        let t = match t {
            None => Some(clause::From(tables)),
            Some(clause::From(mut inner)) => {
                let mut more = tables;
                inner.append(&mut more);
                Some(clause::From(inner))
            },
        };
        Select { with, fields, tables: t, filter, groups, having, orders }
    }

    /// Set the `WHERE` condition; repeated calls AND-combine.
    pub fn filter(self, expr: Expr) -> (r: Select)
        ensures
            r@ == sel_filter(self@, expr),
    {
        let Select { with, fields, tables, filter, groups, having, orders } = self;
        let filter = match filter {
            None => Some(clause::Where(expr)),
            Some(clause::Where(prev)) => Some(clause::Where(crate::ops::and(prev, expr))),
        };
        Select { with, fields, tables, filter, groups, having, orders }
    }

    /// Add more expressions to the `GROUP BY` list; repeated calls extend it.
    pub fn group_by(self, groups: Vec<Expr>) -> (r: Select)
        ensures
            r@ == sel_group_by(self@, groups@),
    {
        let Select { with, fields, tables, filter, groups: g, having, orders } = self;
        let g = match g {
            None => Some(clause::GroupBy(groups)),
            Some(clause::GroupBy(mut inner)) => {
                let mut more = groups;
                inner.append(&mut more);
                Some(clause::GroupBy(inner))
            },
        };
        Select { with, fields, tables, filter, groups: g, having, orders }
    }

    /// Set the `HAVING` condition; repeated calls AND-combine.
    pub fn having(self, expr: Expr) -> (r: Select)
        ensures
            r@ == sel_having(self@, expr),
    {
        let Select { with, fields, tables, filter, groups, having, orders } = self;
        let having = match having {
            None => Some(clause::Having(expr)),
            Some(clause::Having(prev)) => Some(clause::Having(crate::ops::and(prev, expr))),
        };
        Select { with, fields, tables, filter, groups, having, orders }
    }

    /// Add more entries to the `ORDER BY` list; repeated calls extend it.
    pub fn order_by(self, orders: Vec<Order>) -> (r: Select)
        ensures
            r@ == sel_order_by(self@, orders@),
    {
        let Select { with, fields, tables, filter, groups, having, orders: o } = self;
        let o = match o {
            None => Some(clause::OrderBy(orders)),
            Some(clause::OrderBy(mut inner)) => {
                let mut more = orders;
                inner.append(&mut more);
                Some(clause::OrderBy(inner))
            },
        };
        Select { with, fields, tables, filter, groups, having, orders: o }
    }

    /// Wrap this statement so it can carry `LIMIT`, setting the count.
    pub fn limit(self, limit: u32) -> (r: crate::stmt::result::Result)
        ensures
            r@ == (crate::stmt::result::ResultV {
                with: None,
                data: crate::stmt::data::Data::Select(Box::new(self)),
                limit: Some(limit),
                offset: None,
            }),
    {
        crate::stmt::result::Result {
            with: None,
            data: crate::stmt::data::Data::Select(Box::new(self)),
            limit: Some(clause::Limit(limit)),
            offset: None,
        }
    }

    /// Wrap this statement so it can carry `OFFSET`, setting the count.
    pub fn offset(self, offset: u32) -> (r: crate::stmt::result::Result)
        ensures
            r@ == (crate::stmt::result::ResultV {
                with: None,
                data: crate::stmt::data::Data::Select(Box::new(self)),
                limit: None,
                offset: Some(offset),
            }),
    {
        crate::stmt::result::Result {
            with: None,
            data: crate::stmt::data::Data::Select(Box::new(self)),
            limit: None,
            offset: Some(clause::Offset(offset)),
        }
    }

    /// Turn this statement into a plain row-producing result.
    pub fn into_result(self) -> (r: crate::stmt::result::Result)
        ensures
            r@ == (crate::stmt::result::ResultV {
                with: None,
                data: crate::stmt::data::Data::Select(Box::new(self)),
                limit: None,
                offset: None,
            }),
    {
        crate::stmt::result::Result {
            with: None,
            data: crate::stmt::data::Data::Select(Box::new(self)),
            limit: None,
            offset: None,
        }
    }

    /// Append a CTE entry to the `WITH` list, creating the list on first
    /// use.
    pub fn with(self, name: Ident, stmt: Stmt) -> (r: Select)
        ensures
            r@ == (SelectV {
                with: with_add(
                    self@.with,
                    CteV { name: name, columns: Seq::empty(), stmt: stmt },
                ),
                ..self@
            }),
    {
        let Select { with, fields, tables, filter, groups, having, orders } = self;
        let with = crate::stmt::push_cte(with, name, Vec::new(), stmt);
        Select { with, fields, tables, filter, groups, having, orders }
    }

    /// Append a CTE entry with column labels to the `WITH` list.
    pub fn with_labeled(self, name: Ident, columns: Vec<Ident>, stmt: Stmt) -> (r: Select)
        ensures
            r@ == (SelectV {
                with: with_add(self@.with, CteV { name: name, columns: columns@, stmt: stmt }),
                ..self@
            }),
    {
        let Select { with, fields, tables, filter, groups, having, orders } = self;
        let with = crate::stmt::push_cte(with, name, columns, stmt);
        Select { with, fields, tables, filter, groups, having, orders }
    }

    /// Mark the `WITH` list recursive; without one this is a no-op.
    pub fn recursive(self) -> (r: Select)
        ensures
            r@ == (SelectV { with: with_recursive(self@.with, true), ..self@ }),
    {
        let Select { with, fields, tables, filter, groups, having, orders } = self;
        let with = crate::stmt::set_recursive(with, true);
        Select { with, fields, tables, filter, groups, having, orders }
    }

    /// Clear the recursive mark of the `WITH` list; without one this is a
    /// no-op.
    pub fn no_recursive(self) -> (r: Select)
        ensures
            r@ == (SelectV { with: with_recursive(self@.with, false), ..self@ }),
    {
        let Select { with, fields, tables, filter, groups, having, orders } = self;
        let with = crate::stmt::set_recursive(with, false);
        Select { with, fields, tables, filter, groups, having, orders }
    }
}

/// Two successive `filter` calls produce the tree a single call with the
/// AND of both conditions produces, on a statement with no filter yet.
/// With a filter already present the two orders associate the AND nodes
/// differently, so that case is excluded.
pub proof fn lemma_filter_filter(s: SelectV, a: Expr, b: Expr)
    requires
        s.filter is None,
    ensures
        sel_filter(sel_filter(s, a), b) == sel_filter(s, and_expr(a, b)),
{
}

/// Two successive `having` calls produce the tree a single call with the
/// AND of both conditions produces, on a statement with no `HAVING` yet.
pub proof fn lemma_having_having(s: SelectV, a: Expr, b: Expr)
    requires
        s.having is None,
    ensures
        sel_having(sel_having(s, a), b) == sel_having(s, and_expr(a, b)),
{
}

/// Two successive `select` calls extend the field list exactly as a single
/// call with the concatenated list does.
pub proof fn lemma_select_select(s: SelectV, f1: Seq<Field>, f2: Seq<Field>)
    ensures
        sel_select(sel_select(s, f1), f2) == sel_select(s, f1 + f2),
{
    assert((s.fields + f1) + f2 =~= s.fields + (f1 + f2));
    assert(sel_select(sel_select(s, f1), f2) =~= sel_select(s, f1 + f2));
}

/// Two successive `from` calls extend the table list exactly as a single
/// call with the concatenated list does.
pub proof fn lemma_from_from(s: SelectV, t1: Seq<Table>, t2: Seq<Table>)
    ensures
        sel_from(sel_from(s, t1), t2) == sel_from(s, t1 + t2),
{
    match s.tables {
        None => {
            assert(sel_from(sel_from(s, t1), t2) =~= sel_from(s, t1 + t2));
        },
        Some(t0) => {
            assert((t0 + t1) + t2 =~= t0 + (t1 + t2));
            assert(sel_from(sel_from(s, t1), t2) =~= sel_from(s, t1 + t2));
        },
    }
}

/// Two successive `group_by` calls extend the grouping list exactly as a
/// single call with the concatenated list does.
pub proof fn lemma_group_by_group_by(s: SelectV, g1: Seq<Expr>, g2: Seq<Expr>)
    ensures
        sel_group_by(sel_group_by(s, g1), g2) == sel_group_by(s, g1 + g2),
{
    match s.groups {
        None => {
            assert(sel_group_by(sel_group_by(s, g1), g2) =~= sel_group_by(s, g1 + g2));
        },
        Some(g0) => {
            assert((g0 + g1) + g2 =~= g0 + (g1 + g2));
            assert(sel_group_by(sel_group_by(s, g1), g2) =~= sel_group_by(s, g1 + g2));
        },
    }
}

/// Two successive `order_by` calls extend the sort list exactly as a
/// single call with the concatenated list does.
pub proof fn lemma_order_by_order_by(s: SelectV, o1: Seq<Order>, o2: Seq<Order>)
    ensures
        sel_order_by(sel_order_by(s, o1), o2) == sel_order_by(s, o1 + o2),
{
    match s.orders {
        None => {
            assert(sel_order_by(sel_order_by(s, o1), o2) =~= sel_order_by(s, o1 + o2));
        },
        Some(o0) => {
            assert((o0 + o1) + o2 =~= o0 + (o1 + o2));
            assert(sel_order_by(sel_order_by(s, o1), o2) =~= sel_order_by(s, o1 + o2));
        },
    }
}

impl Clone for Select {
    fn clone(&self) -> Self
        decreases self,
    {
        Select {
            with: crate::stmt::clone_opt_with(&self.with),
            fields: self.fields.clone(),
            tables: match &self.tables {
                None => None,
                Some(c) => Some(c.clone()),
            },
            filter: match &self.filter {
                None => None,
                Some(c) => Some(c.clone()),
            },
            groups: match &self.groups {
                None => None,
                Some(c) => Some(c.clone()),
            },
            having: match &self.having {
                None => None,
                Some(c) => Some(c.clone()),
            },
            orders: match &self.orders {
                None => None,
                Some(c) => Some(c.clone()),
            },
        }
    }
}

} // verus!
