//! The result wrapper: a row-producing statement together with its
//! optional `LIMIT` and `OFFSET` clauses.

use vstd::prelude::*;

use crate::clause;
use crate::clause::WithV;
use crate::item::CteV;
use crate::item::Ident;
use crate::stmt::data::Data;
use crate::stmt::with_add;
use crate::stmt::with_recursive;
use crate::stmt::Stmt;

verus! {

/// A row-producing statement wrapped so it can carry `LIMIT` and `OFFSET`,
/// with its own optional `WITH` list.
#[derive(Debug, PartialEq, Eq)]
pub struct Result {
    pub with: Option<clause::With>,
    pub data: Data,
    pub limit: Option<clause::Limit>,
    pub offset: Option<clause::Offset>,
}

/// The mathematical model of a result wrapper.
#[verifier::ext_equal]
pub ghost struct ResultV {
    pub with: Option<WithV>,
    pub data: Data,
    pub limit: Option<u32>,
    pub offset: Option<u32>,
}

impl View for Result {
    type V = ResultV;

    open spec fn view(&self) -> ResultV {
        ResultV {
            with: match self.with {
                None => None,
                Some(w) => Some(w@),
            },
            data: self.data,
            limit: match self.limit {
                None => None,
                Some(l) => Some(l.0),
            },
            offset: match self.offset {
                None => None,
                Some(o) => Some(o.0),
            },
        }
    }
}

impl Result {
    /// Append a CTE entry to the `WITH` list, creating the list on first
    /// use.
    pub fn with(self, name: Ident, stmt: Stmt) -> (r: Result)
        ensures
            r@ == (ResultV {
                with: with_add(self@.with, CteV { name: name, columns: Seq::empty(), stmt: stmt }),
                ..self@
            }),
    {
        let Result { with, data, limit, offset } = self;
        let with = crate::stmt::push_cte(with, name, Vec::new(), stmt);
        Result { with, data, limit, offset }
    }

    /// Append a CTE entry with column labels to the `WITH` list.
    pub fn with_labeled(self, name: Ident, columns: Vec<Ident>, stmt: Stmt) -> (r: Result)
        ensures
            r@ == (ResultV {
                with: with_add(self@.with, CteV { name: name, columns: columns@, stmt: stmt }),
                ..self@
            }),
    {
        let Result { with, data, limit, offset } = self;
        let with = crate::stmt::push_cte(with, name, columns, stmt);
        Result { with, data, limit, offset }
    }

    /// Mark the `WITH` list recursive; without one this is a no-op.
    pub fn recursive(self) -> (r: Result)
        ensures
            r@ == (ResultV { with: with_recursive(self@.with, true), ..self@ }),
    {
        let Result { with, data, limit, offset } = self;
        let with = crate::stmt::set_recursive(with, true);
        Result { with, data, limit, offset }
    }

    /// Clear the recursive mark of the `WITH` list; without one this is a
    /// no-op.
    pub fn no_recursive(self) -> (r: Result)
        ensures
            r@ == (ResultV { with: with_recursive(self@.with, false), ..self@ }),
    {
        let Result { with, data, limit, offset } = self;
        let with = crate::stmt::set_recursive(with, false);
        Result { with, data, limit, offset }
    }
}

impl Clone for Result {
    fn clone(&self) -> Self
        decreases self,
    {
        Result {
            with: crate::stmt::clone_opt_with(&self.with),
            data: self.data.clone(),
            limit: self.limit,
            offset: self.offset,
        }
    }
}

} // verus!
