//! The `INSERT` statement builder.

use vstd::prelude::*;

use crate::clause;
use crate::clause::WithV;
use crate::item::CteV;
use crate::item::Field;
use crate::item::Ident;
use crate::item::Row;
use crate::item::TableRef;
use crate::stmt::data::Data;
use crate::stmt::data::DataV;
use crate::stmt::with_add;
use crate::stmt::with_recursive;
use crate::stmt::Stmt;

verus! {

/// An `INSERT` statement: an optional `WITH` list, the target table with
/// its column list, the inserted data, and an optional `RETURNING` list.
#[derive(Debug, PartialEq, Eq)]
pub struct Insert {
    pub with: Option<clause::With>,
    pub table: clause::Insert,
    pub data: Data,
    pub returns: Option<clause::Returning>,
}

/// The mathematical model of an `INSERT` statement.
#[verifier::ext_equal]
pub ghost struct InsertV {
    pub with: Option<WithV>,
    pub table: TableRef,
    pub columns: Seq<Ident>,
    pub data: DataV,
    pub returns: Option<Seq<Field>>,
}

impl View for Insert {
    type V = InsertV;

    open spec fn view(&self) -> InsertV {
        InsertV {
            with: match self.with {
                None => None,
                Some(w) => Some(w@),
            },
            table: self.table.0,
            columns: self.table.1@,
            data: self.data@,
            returns: match self.returns {
                None => None,
                Some(r) => Some(r.0@),
            },
        }
    }
}

impl Insert {
    /// Append more rows to the inserted `VALUES` data.  The statement must
    /// still be in `VALUES` form: switching to a `SELECT` source and then
    /// appending rows is a contract violation, so it is ruled out here.
    pub fn values(self, rows: Vec<Row>) -> (r: Insert)
        requires
            self@.data is Values,
        ensures
            r@ == (InsertV {
                data: DataV::Values(
                    crate::stmt::values::ValuesV {
                        with: self@.data->Values_0.with,
                        rows: self@.data->Values_0.rows + rows@,
                    },
                ),
                ..self@
            }),
    {
        let Insert { with, table, data, returns } = self;
        let data = match data {
            Data::Values(crate::stmt::values::Values { with: vwith, rows: clause::Values(mut rs) }) => {
                let mut more = rows;
                rs.append(&mut more);
                Data::Values(crate::stmt::values::Values { with: vwith, rows: clause::Values(rs) })
            },
            _ => {
                proof {
                    assert(false);
                }
                data
            },
        };
        Insert { with, table, data, returns }
    }

    /// Source the inserted data from a `SELECT` statement, replacing any
    /// earlier data form.
    pub fn select(self, select: crate::stmt::select::Select) -> (r: Insert)
        ensures
            r@ == (InsertV { data: DataV::Select(select), ..self@ }),
    {
        let Insert { with, table, data: _, returns } = self;
        Insert { with, table, data: Data::Select(Box::new(select)), returns }
    }

    /// Add more fields to the `RETURNING` list; repeated calls extend it.
    pub fn returning(self, fields: Vec<Field>) -> (r: Insert)
        ensures
            r@ == (InsertV { returns: crate::stmt::returned(self@.returns, fields@), ..self@ }),
    {
        let Insert { with, table, data, returns: prev } = self;
        let prev = match prev {
            None => Some(clause::Returning(fields)),
            Some(clause::Returning(mut inner)) => {
                let mut more = fields;
                inner.append(&mut more);
                Some(clause::Returning(inner))
            },
        };
        Insert { with, table, data, returns: prev }
    }

    /// Append a CTE entry to the `WITH` list, creating the list on first
    /// use.
    pub fn with(self, name: Ident, stmt: Stmt) -> (r: Insert)
        ensures
            r@ == (InsertV {
                with: with_add(self@.with, CteV { name: name, columns: Seq::empty(), stmt: stmt }),
                ..self@
            }),
    {
        let Insert { with, table, data, returns } = self;
        let with = crate::stmt::push_cte(with, name, Vec::new(), stmt);
        Insert { with, table, data, returns }
    }

    /// Append a CTE entry with column labels to the `WITH` list.
    pub fn with_labeled(self, name: Ident, columns: Vec<Ident>, stmt: Stmt) -> (r: Insert)
        ensures
            r@ == (InsertV {
                with: with_add(self@.with, CteV { name: name, columns: columns@, stmt: stmt }),
                ..self@
            }),
    {
        let Insert { with, table, data, returns } = self;
        let with = crate::stmt::push_cte(with, name, columns, stmt);
        Insert { with, table, data, returns }
    }

    /// Mark the `WITH` list recursive; without one this is a no-op.
    pub fn recursive(self) -> (r: Insert)
        ensures
            r@ == (InsertV { with: with_recursive(self@.with, true), ..self@ }),
    {
        let Insert { with, table, data, returns } = self;
        let with = crate::stmt::set_recursive(with, true);
        Insert { with, table, data, returns }
    }

    /// Clear the recursive mark of the `WITH` list; without one this is a
    /// no-op.
    pub fn no_recursive(self) -> (r: Insert)
        ensures
            r@ == (InsertV { with: with_recursive(self@.with, false), ..self@ }),
    {
        let Insert { with, table, data, returns } = self;
        let with = crate::stmt::set_recursive(with, false);
        Insert { with, table, data, returns }
    }
}

impl Clone for Insert {
    fn clone(&self) -> Self
        decreases self,
    {
        Insert {
            with: crate::stmt::clone_opt_with(&self.with),
            table: self.table.clone(),
            data: self.data.clone(),
            returns: match &self.returns {
                None => None,
                Some(c) => Some(c.clone()),
            },
        }
    }
}

} // verus!
