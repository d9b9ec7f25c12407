//! The binary statement: two row-producing statements combined with a set
//! operator.

use vstd::prelude::*;

use crate::clause;
use crate::clause::WithV;
use crate::item::CteV;
use crate::item::Ident;
use crate::stmt::with_add;
use crate::stmt::with_recursive;
use crate::stmt::Stmt;

verus! {

/// A set operation: two row-producing statements joined by `UNION`,
/// `EXCEPT` or `INTERSECT`, each possibly `ALL`, with its own optional
/// `WITH` list.
#[derive(Debug, PartialEq, Eq)]
pub struct Binary {
    pub with: Option<clause::With>,
    pub left: Box<crate::stmt::result::Result>,
    pub op: &'static str,
    pub right: Box<crate::stmt::result::Result>,
}

/// The mathematical model of a set operation.
#[verifier::ext_equal]
pub ghost struct BinaryV {
    pub with: Option<WithV>,
    pub left: crate::stmt::result::Result,
    pub op: &'static str,
    pub right: crate::stmt::result::Result,
}

impl View for Binary {
    type V = BinaryV;

    open spec fn view(&self) -> BinaryV {
        BinaryV {
            with: match self.with {
                None => None,
                Some(w) => Some(w@),
            },
            left: *self.left,
            op: self.op,
            right: *self.right,
        }
    }
}

impl Binary {
    /// Turn this statement into a plain row-producing result.
    pub fn into_result(self) -> (r: crate::stmt::result::Result)
        ensures
            r@ == (crate::stmt::result::ResultV {
                with: None,
                data: crate::stmt::data::Data::Binary(self),
                limit: None,
                offset: None,
            }),
    {
        crate::stmt::result::Result {
            with: None,
            data: crate::stmt::data::Data::Binary(self),
            limit: None,
            offset: None,
        }
    }

    /// Append a CTE entry to the `WITH` list, creating the list on first
    /// use.
    pub fn with(self, name: Ident, stmt: Stmt) -> (r: Binary)
        ensures
            r@ == (BinaryV {
                with: with_add(self@.with, CteV { name: name, columns: Seq::empty(), stmt: stmt }),
                ..self@
            }),
    {
        let Binary { with, left, op, right } = self;
        let with = crate::stmt::push_cte(with, name, Vec::new(), stmt);
        Binary { with, left, op, right }
    }

    /// Append a CTE entry with column labels to the `WITH` list.
    pub fn with_labeled(self, name: Ident, columns: Vec<Ident>, stmt: Stmt) -> (r: Binary)
        ensures
            r@ == (BinaryV {
                with: with_add(self@.with, CteV { name: name, columns: columns@, stmt: stmt }),
                ..self@
            }),
    {
        let Binary { with, left, op, right } = self;
        let with = crate::stmt::push_cte(with, name, columns, stmt);
        Binary { with, left, op, right }
    }

    /// Mark the `WITH` list recursive; without one this is a no-op.
    pub fn recursive(self) -> (r: Binary)
        ensures
            r@ == (BinaryV { with: with_recursive(self@.with, true), ..self@ }),
    {
        let Binary { with, left, op, right } = self;
        let with = crate::stmt::set_recursive(with, true);
        Binary { with, left, op, right }
    }

    /// Clear the recursive mark of the `WITH` list; without one this is a
    /// no-op.
    pub fn no_recursive(self) -> (r: Binary)
        ensures
            r@ == (BinaryV { with: with_recursive(self@.with, false), ..self@ }),
    {
        let Binary { with, left, op, right } = self;
        let with = crate::stmt::set_recursive(with, false);
        Binary { with, left, op, right }
    }
}

impl Clone for Binary {
    fn clone(&self) -> Self
        decreases self,
    {
        Binary {
            with: crate::stmt::clone_opt_with(&self.with),
            left: Box::new((*self.left).clone()),
            op: self.op,
            right: Box::new((*self.right).clone()),
        }
    }
}

} // verus!
