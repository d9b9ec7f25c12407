//! The `DELETE` statement builder.

use vstd::prelude::*;

use crate::clause;
use crate::clause::WithV;
use crate::expr::Expr;
use crate::item::CteV;
use crate::item::Field;
use crate::item::Ident;
use crate::item::TableRef;
use crate::stmt::filtered;
use crate::stmt::returned;
use crate::stmt::with_add;
use crate::stmt::with_recursive;
use crate::stmt::Stmt;

verus! {

/// A `DELETE` statement: an optional `WITH` list, the target table, and
/// the optional `WHERE` and `RETURNING` clauses.
#[derive(Debug, PartialEq, Eq)]
pub struct Delete {
    pub with: Option<clause::With>,
    pub table: clause::Delete,
    pub filter: Option<clause::Where>,
    pub returns: Option<clause::Returning>,
}

/// The mathematical model of a `DELETE` statement.
#[verifier::ext_equal]
pub ghost struct DeleteV {
    pub with: Option<WithV>,
    pub table: TableRef,
    pub filter: Option<Expr>,
    pub returns: Option<Seq<Field>>,
}

impl View for Delete {
    type V = DeleteV;

    open spec fn view(&self) -> DeleteV {
        DeleteV {
            with: match self.with {
                None => None,
                Some(w) => Some(w@),
            },
            table: self.table.0,
            filter: match self.filter {
                None => None,
                Some(w) => Some(w.0),
            },
            returns: match self.returns {
                None => None,
                Some(r) => Some(r.0@),
            },
        }
    }
}

impl Delete {
    /// Set the `WHERE` condition; repeated calls AND-combine.
    pub fn filter(self, expr: Expr) -> (r: Delete)
        ensures
            r@ == (DeleteV { filter: filtered(self@.filter, expr), ..self@ }),
    {
        let Delete { with, table, filter, returns } = self;
        let filter = match filter {
            None => Some(clause::Where(expr)),
            Some(clause::Where(prev)) => Some(clause::Where(crate::ops::and(prev, expr))),
        };
        Delete { with, table, filter, returns }
    }

    /// Add more fields to the `RETURNING` list; repeated calls extend it.
    pub fn returning(self, fields: Vec<Field>) -> (r: Delete)
        ensures
            r@ == (DeleteV { returns: returned(self@.returns, fields@), ..self@ }),
    {
        let Delete { with, table, filter, returns: prev } = self;
        let prev = match prev {
            None => Some(clause::Returning(fields)),
            Some(clause::Returning(mut inner)) => {
                let mut more = fields;
                inner.append(&mut more);
                Some(clause::Returning(inner))
            },
        };
        Delete { with, table, filter, returns: prev }
    }

    /// Append a CTE entry to the `WITH` list, creating the list on first
    /// use.
    pub fn with(self, name: Ident, stmt: Stmt) -> (r: Delete)
        ensures
            r@ == (DeleteV {
                with: with_add(self@.with, CteV { name: name, columns: Seq::empty(), stmt: stmt }),
                ..self@
            }),
    {
        let Delete { with, table, filter, returns } = self;
        let with = crate::stmt::push_cte(with, name, Vec::new(), stmt);
        Delete { with, table, filter, returns }
    }

    /// Append a CTE entry with column labels to the `WITH` list.
    pub fn with_labeled(self, name: Ident, columns: Vec<Ident>, stmt: Stmt) -> (r: Delete)
        ensures
            r@ == (DeleteV {
                with: with_add(self@.with, CteV { name: name, columns: columns@, stmt: stmt }),
                ..self@
            }),
    {
        let Delete { with, table, filter, returns } = self;
        let with = crate::stmt::push_cte(with, name, columns, stmt);
        Delete { with, table, filter, returns }
    }

    /// Mark the `WITH` list recursive; without one this is a no-op.
    pub fn recursive(self) -> (r: Delete)
        ensures
            r@ == (DeleteV { with: with_recursive(self@.with, true), ..self@ }),
    {
        let Delete { with, table, filter, returns } = self;
        let with = crate::stmt::set_recursive(with, true);
        Delete { with, table, filter, returns }
    }

    /// Clear the recursive mark of the `WITH` list; without one this is a
    /// no-op.
    pub fn no_recursive(self) -> (r: Delete)
        ensures
            r@ == (DeleteV { with: with_recursive(self@.with, false), ..self@ }),
    {
        let Delete { with, table, filter, returns } = self;
        let with = crate::stmt::set_recursive(with, false);
        Delete { with, table, filter, returns }
    }
}

impl Clone for Delete {
    fn clone(&self) -> Self
        decreases self,
    {
        Delete {
            with: crate::stmt::clone_opt_with(&self.with),
            table: self.table.clone(),
            filter: match &self.filter {
                None => None,
                Some(c) => Some(c.clone()),
            },
            returns: match &self.returns {
                None => None,
                Some(c) => Some(c.clone()),
            },
        }
    }
}

} // verus!
