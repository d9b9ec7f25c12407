//! The `UPDATE` statement builder.

use vstd::prelude::*;

use crate::clause;
use crate::clause::WithV;
use crate::expr::Expr;
use crate::item::CteV;
use crate::item::Field;
use crate::item::Ident;
use crate::item::Table;
use crate::item::TableRef;
use crate::stmt::filtered;
use crate::stmt::returned;
use crate::stmt::with_add;
use crate::stmt::with_recursive;
use crate::stmt::Stmt;

verus! {

/// An `UPDATE` statement: an optional `WITH` list, the target table, the
/// `SET` assignments, and the optional `FROM`, `WHERE` and `RETURNING`
/// clauses.
#[derive(Debug, PartialEq, Eq)]
pub struct Update {
    pub with: Option<clause::With>,
    pub table: clause::Update,
    pub set: clause::SetClause,
    pub from: Option<clause::From>,
    pub filter: Option<clause::Where>,
    pub returns: Option<clause::Returning>,
}

/// The mathematical model of an `UPDATE` statement.
#[verifier::ext_equal]
pub ghost struct UpdateV {
    pub with: Option<WithV>,
    pub table: TableRef,
    pub set: Seq<(Ident, Expr)>,
    pub from: Option<Seq<Table>>,
    pub filter: Option<Expr>,
    pub returns: Option<Seq<Field>>,
}

impl View for Update {
    type V = UpdateV;

    open spec fn view(&self) -> UpdateV {
        UpdateV {
            with: match self.with {
                None => None,
                Some(w) => Some(w@),
            },
            table: self.table.0,
            set: self.set.0@,
            from: match self.from {
                None => None,
                Some(f) => Some(f.0@),
            },
            filter: match self.filter {
                None => None,
                Some(w) => Some(w.0),
            },
            returns: match self.returns {
                None => None,
                Some(r) => Some(r.0@),
            },
        }
    }
}

impl Update {
    /// Append one column assignment to the `SET` list.
    pub fn set(self, column: Ident, expr: Expr) -> (r: Update)
        ensures
            r@ == (UpdateV { set: self@.set.push((column, expr)), ..self@ }),
    {
        let Update { with, table, set: clause::SetClause(mut pairs), from, filter, returns } = self;
        pairs.push((column, expr));
        Update { with, table, set: clause::SetClause(pairs), from, filter, returns }
    }

    /// Append a list of column assignments to the `SET` list.
    pub fn set_values(self, values: Vec<(Ident, Expr)>) -> (r: Update)
        ensures
            r@ == (UpdateV { set: self@.set + values@, ..self@ }),
    {
        let Update { with, table, set: clause::SetClause(mut pairs), from, filter, returns } = self;
        let mut more = values;
        pairs.append(&mut more);
        Update { with, table, set: clause::SetClause(pairs), from, filter, returns }
    }

    /// Add more tables to the `FROM` list; repeated calls extend it.
    pub fn from(self, tables: Vec<Table>) -> (r: Update)
        ensures
            r@ == (UpdateV {
                from: match self@.from {
                    None => Some(tables@),
                    Some(t) => Some(t + tables@),
                },
                ..self@
            }),
    {
        let Update { with, table, set, from, filter, returns } = self;
        let from = match from {
            None => Some(clause::From(tables)),
            Some(clause::From(mut inner)) => {
                let mut more = tables;
                inner.append(&mut more);
                Some(clause::From(inner))
            },
        };
        Update { with, table, set, from, filter, returns }
    }

    /// Set the `WHERE` condition; repeated calls AND-combine.
    pub fn filter(self, expr: Expr) -> (r: Update)
        ensures
            r@ == (UpdateV { filter: filtered(self@.filter, expr), ..self@ }),
    {
        let Update { with, table, set, from, filter, returns } = self;
        let filter = match filter {
            None => Some(clause::Where(expr)),
            Some(clause::Where(prev)) => Some(clause::Where(crate::ops::and(prev, expr))),
        };
        Update { with, table, set, from, filter, returns }
    }

    /// Add more fields to the `RETURNING` list; repeated calls extend it.
    pub fn returning(self, fields: Vec<Field>) -> (r: Update)
        ensures
            r@ == (UpdateV { returns: returned(self@.returns, fields@), ..self@ }),
    {
        let Update { with, table, set, from, filter, returns: prev } = self;
        let prev = match prev {
            None => Some(clause::Returning(fields)),
            Some(clause::Returning(mut inner)) => {
                let mut more = fields;
                inner.append(&mut more);
                Some(clause::Returning(inner))
            },
        };
        Update { with, table, set, from, filter, returns: prev }
    }

    /// Append a CTE entry to the `WITH` list, creating the list on first
    /// use.
    pub fn with(self, name: Ident, stmt: Stmt) -> (r: Update)
        ensures
            r@ == (UpdateV {
                with: with_add(self@.with, CteV { name: name, columns: Seq::empty(), stmt: stmt }),
                ..self@
            }),
    {
        let Update { with, table, set, from, filter, returns } = self;
        let with = crate::stmt::push_cte(with, name, Vec::new(), stmt);
        Update { with, table, set, from, filter, returns }
    }

    /// Append a CTE entry with column labels to the `WITH` list.
    pub fn with_labeled(self, name: Ident, columns: Vec<Ident>, stmt: Stmt) -> (r: Update)
        ensures
            r@ == (UpdateV {
                with: with_add(self@.with, CteV { name: name, columns: columns@, stmt: stmt }),
                ..self@
            }),
    {
        let Update { with, table, set, from, filter, returns } = self;
        let with = crate::stmt::push_cte(with, name, columns, stmt);
        Update { with, table, set, from, filter, returns }
    }

    /// Mark the `WITH` list recursive; without one this is a no-op.
    pub fn recursive(self) -> (r: Update)
        ensures
            r@ == (UpdateV { with: with_recursive(self@.with, true), ..self@ }),
    {
        let Update { with, table, set, from, filter, returns } = self;
        let with = crate::stmt::set_recursive(with, true);
        Update { with, table, set, from, filter, returns }
    }

    /// Clear the recursive mark of the `WITH` list; without one this is a
    /// no-op.
    pub fn no_recursive(self) -> (r: Update)
        ensures
            r@ == (UpdateV { with: with_recursive(self@.with, false), ..self@ }),
    {
        let Update { with, table, set, from, filter, returns } = self;
        let with = crate::stmt::set_recursive(with, false);
        Update { with, table, set, from, filter, returns }
    }
}

impl Clone for Update {
    fn clone(&self) -> Self
        decreases self,
    {
        Update {
            with: crate::stmt::clone_opt_with(&self.with),
            table: self.table.clone(),
            set: self.set.clone(),
            from: match &self.from {
                None => None,
                Some(c) => Some(c.clone()),
            },
            filter: match &self.filter {
                None => None,
                Some(c) => Some(c.clone()),
            },
            returns: match &self.returns {
                None => None,
                Some(c) => Some(c.clone()),
            },
        }
    }
}

} // verus!
