//! The `VALUES` statement builder.

use vstd::prelude::*;

use crate::clause;
use crate::clause::WithV;
use crate::item::CteV;
use crate::item::Ident;
use crate::item::Row;
use crate::stmt::with_add;
use crate::stmt::with_recursive;
use crate::stmt::Stmt;

verus! {

/// A `VALUES` statement: an optional `WITH` list and the list of rows.
#[derive(Debug, PartialEq, Eq)]
pub struct Values {
    pub with: Option<clause::With>,
    pub rows: clause::Values,
}

/// The mathematical model of a `VALUES` statement.
#[verifier::ext_equal]
pub ghost struct ValuesV {
    pub with: Option<WithV>,
    pub rows: Seq<Row>,
}

impl View for Values {
    type V = ValuesV;

    open spec fn view(&self) -> ValuesV {
        ValuesV {
            with: match self.with {
                None => None,
                Some(w) => Some(w@),
            },
            rows: self.rows.0@,
        }
    }
}

impl Values {
    /// Wrap this statement so it can carry `LIMIT`, setting the count.
    pub fn limit(self, limit: u32) -> (r: crate::stmt::result::Result)
        ensures
            r@ == (crate::stmt::result::ResultV {
                with: None,
                data: crate::stmt::data::Data::Values(self),
                limit: Some(limit),
                offset: None,
            }),
    {
        crate::stmt::result::Result {
            with: None,
            data: crate::stmt::data::Data::Values(self),
            limit: Some(clause::Limit(limit)),
            offset: None,
        }
    }

    /// Wrap this statement so it can carry `OFFSET`, setting the count.
    pub fn offset(self, offset: u32) -> (r: crate::stmt::result::Result)
        ensures
            r@ == (crate::stmt::result::ResultV {
                with: None,
                data: crate::stmt::data::Data::Values(self),
                limit: None,
                offset: Some(offset),
            }),
    {
        crate::stmt::result::Result {
            with: None,
            data: crate::stmt::data::Data::Values(self),
            limit: None,
            offset: Some(clause::Offset(offset)),
        }
    }

    /// Turn this statement into a plain row-producing result.
    pub fn into_result(self) -> (r: crate::stmt::result::Result)
        ensures
            r@ == (crate::stmt::result::ResultV {
                with: None,
                data: crate::stmt::data::Data::Values(self),
                limit: None,
                offset: None,
            }),
    {
        crate::stmt::result::Result {
            with: None,
            data: crate::stmt::data::Data::Values(self),
            limit: None,
            offset: None,
        }
    }

    /// Append a CTE entry to the `WITH` list, creating the list on first
    /// use.
    pub fn with(self, name: Ident, stmt: Stmt) -> (r: Values)
        ensures
            r@ == (ValuesV {
                with: with_add(self@.with, CteV { name: name, columns: Seq::empty(), stmt: stmt }),
                ..self@
            }),
    {
        let Values { with, rows } = self;
        let with = crate::stmt::push_cte(with, name, Vec::new(), stmt);
        Values { with, rows }
    }

    /// Append a CTE entry with column labels to the `WITH` list.
    pub fn with_labeled(self, name: Ident, columns: Vec<Ident>, stmt: Stmt) -> (r: Values)
        ensures
            r@ == (ValuesV {
                with: with_add(self@.with, CteV { name: name, columns: columns@, stmt: stmt }),
                ..self@
            }),
    {
        let Values { with, rows } = self;
        let with = crate::stmt::push_cte(with, name, columns, stmt);
        Values { with, rows }
    }

    /// Mark the `WITH` list recursive; without one this is a no-op.
    pub fn recursive(self) -> (r: Values)
        ensures
            r@ == (ValuesV { with: with_recursive(self@.with, true), ..self@ }),
    {
        let Values { with, rows } = self;
        let with = crate::stmt::set_recursive(with, true);
        Values { with, rows }
    }

    /// Clear the recursive mark of the `WITH` list; without one this is a
    /// no-op.
    pub fn no_recursive(self) -> (r: Values)
        ensures
            r@ == (ValuesV { with: with_recursive(self@.with, false), ..self@ }),
    {
        let Values { with, rows } = self;
        let with = crate::stmt::set_recursive(with, false);
        Values { with, rows }
    }
}

impl Clone for Values {
    fn clone(&self) -> Self
        decreases self,
    {
        Values { with: crate::stmt::clone_opt_with(&self.with), rows: self.rows.clone() }
    }
}

} // verus!
