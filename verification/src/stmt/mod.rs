//! The statement model: one builder type per statement kind, a closed sum
//! of all of them, and the free constructor functions.

use vstd::prelude::*;

use crate::clause;
use crate::clause::WithV;
use crate::item::CteV;
use crate::item::Field;
use crate::item::Ident;
use crate::item::Row;
use crate::item::TableRef;

pub mod binary;
pub mod data;
pub mod delete;
pub mod insert;
pub mod result;
pub mod select;
pub mod update;
pub mod values;

verus! {

/// A complete statement of any kind, used wherever a nested or CTE
/// statement is required.
#[derive(Debug, PartialEq, Eq)]
pub enum Stmt {
    Insert(crate::stmt::insert::Insert),
    Select(crate::stmt::select::Select),
    Update(crate::stmt::update::Update),
    Delete(crate::stmt::delete::Delete),
    Values(crate::stmt::values::Values),
    Binary(crate::stmt::binary::Binary),
    Result(crate::stmt::result::Result),
}


/// Clone an optional `WITH` clause.
pub(crate) fn clone_opt_with(w: &Option<clause::With>) -> Option<clause::With>
    decreases w,
{
    match w {
        None => None,
        Some(c) => Some(c.clone()),
    }
}

/// The model of an optional `WITH` clause.
pub open spec fn opt_with_view(w: Option<clause::With>) -> Option<WithV> {
    match w {
        None => None,
        Some(inner) => Some(inner@),
    }
}

/// Append one CTE entry to an optional `WITH` clause, creating the clause,
/// as non-recursive, on first use.
pub(crate) fn push_cte(w: Option<clause::With>, name: Ident, columns: Vec<Ident>, stmt: Stmt) -> (r:
    Option<clause::With>)
    ensures
        opt_with_view(r) == with_add(
            opt_with_view(w),
            CteV { name: name, columns: columns@, stmt: stmt },
        ),
{
    let cte = crate::item::Cte { name, columns, stmt };
    match w {
        None => {
            let mut ctes: Vec<crate::item::Cte> = Vec::new();
            ctes.push(cte);
            proof {
                assert(ctes@.map_values(|c: crate::item::Cte| c@) =~= seq![cte@]);
            }
            Some(clause::With(false, ctes))
        },
        Some(clause::With(recursive, mut ctes)) => {
            let ghost ctes0 = ctes@;
            ctes.push(cte);
            let r = Some(clause::With(recursive, ctes));
            proof {
                assert(ctes0.push(cte).map_values(|c: crate::item::Cte| c@) =~= ctes0.map_values(
                    |c: crate::item::Cte| c@,
                ).push(cte@));
            }
            r
        },
    }
}

/// Set or clear the recursive flag of an optional `WITH` clause; without a
/// clause this is a no-op.
pub(crate) fn set_recursive(w: Option<clause::With>, recursive: bool) -> (r: Option<clause::With>)
    ensures
        opt_with_view(r) == with_recursive(opt_with_view(w), recursive),
{
    match w {
        None => None,
        Some(clause::With(_, ctes)) => Some(clause::With(recursive, ctes)),
    }
}

/// Append one CTE entry to a `WITH` model, creating the clause, as
/// non-recursive, on first use.
pub open spec fn with_add(w: Option<WithV>, c: CteV) -> Option<WithV> {
    match w {
        None => Some(WithV { recursive: false, ctes: seq![c] }),
        Some(wv) => Some(WithV { recursive: wv.recursive, ctes: wv.ctes.push(c) }),
    }
}

/// Set the recursive flag of a `WITH` model; without a clause this is a
/// no-op, not an error.
pub open spec fn with_recursive(w: Option<WithV>, recursive: bool) -> Option<WithV> {
    match w {
        None => None,
        Some(wv) => Some(WithV { recursive, ctes: wv.ctes }),
    }
}

/// AND-combine a new condition into an optional filter: the first call
/// installs the condition, a later call wraps both in a binary AND.
pub open spec fn filtered(w: Option<crate::expr::Expr>, e: crate::expr::Expr) -> Option<
    crate::expr::Expr,
> {
    match w {
        None => Some(e),
        Some(c) => Some(crate::ops::and_expr(c, e)),
    }
}

/// Extend an optional `RETURNING` list, creating it on first use.
pub open spec fn returned(r: Option<Seq<Field>>, more: Seq<Field>) -> Option<Seq<Field>> {
    match r {
        None => Some(more),
        Some(prev) => Some(prev + more),
    }
}

/// Two successive `returning` calls extend the returned list exactly as a
/// single call with the concatenated list does.
pub proof fn lemma_returning_returning(r: Option<Seq<Field>>, f1: Seq<Field>, f2: Seq<Field>)
    ensures
        returned(returned(r, f1), f2) == returned(r, f1 + f2),
{
    match r {
        None => {
            assert(returned(returned(r, f1), f2) =~= returned(r, f1 + f2));
        },
        Some(prev) => {
            assert((prev + f1) + f2 =~= prev + (f1 + f2));
            assert(returned(returned(r, f1), f2) =~= returned(r, f1 + f2));
        },
    }
}

/// Successive filter calls AND-combine: filtering by `a` and then by `b`
/// yields, on a statement that has no filter yet, the same tree as one
/// filter by `and(a, b)`.  With a filter already present the two orders
/// associate the AND nodes differently, so that case is excluded.
pub proof fn lemma_filtered_and_combines(
    w: Option<crate::expr::Expr>,
    a: crate::expr::Expr,
    b: crate::expr::Expr,
)
    requires
        w is None,
    ensures
        filtered(filtered(w, a), b) == filtered(w, crate::ops::and_expr(a, b)),
{
}

/// Construct a `SELECT` statement from its field list.
pub fn select(fields: Vec<Field>) -> (r: crate::stmt::select::Select)
    ensures
        r@ == (crate::stmt::select::SelectV {
            with: None,
            fields: fields@,
            tables: None,
            filter: None,
            groups: None,
            having: None,
            orders: None,
        }),
{
    crate::stmt::select::Select {
        with: None,
        fields: clause::Select(fields),
        tables: None,
        filter: None,
        groups: None,
        having: None,
        orders: None,
    }
}

/// Construct a `VALUES` statement from its rows.
pub fn values(rows: Vec<Row>) -> (r: crate::stmt::values::Values)
    ensures
        r@ == (crate::stmt::values::ValuesV { with: None, rows: rows@ }),
{
    crate::stmt::values::Values { with: None, rows: clause::Values(rows) }
}

/// Construct an `INSERT` statement from its target table and column list;
/// its data starts as an empty `VALUES` form.
pub fn insert(table: TableRef, columns: Vec<Ident>) -> (r: crate::stmt::insert::Insert)
    ensures
        r@.with is None,
        r@.table == table,
        r@.columns == columns@,
        r@.data == crate::stmt::data::DataV::Values(
            crate::stmt::values::ValuesV { with: None, rows: Seq::empty() },
        ),
        r@.returns is None,
{
    crate::stmt::insert::Insert {
        with: None,
        table: clause::Insert(table, columns),
        data: crate::stmt::data::Data::Values(
            crate::stmt::values::Values { with: None, rows: clause::Values(Vec::new()) },
        ),
        returns: None,
    }
}

/// Construct a `DELETE` statement from its target table.
pub fn delete(table: TableRef) -> (r: crate::stmt::delete::Delete)
    ensures
        r@ == (crate::stmt::delete::DeleteV {
            with: None,
            table: table,
            filter: None,
            returns: None,
        }),
{
    crate::stmt::delete::Delete {
        with: None,
        table: clause::Delete(table),
        filter: None,
        returns: None,
    }
}

/// Construct an `UPDATE` statement from its target table; its `SET` list
/// starts empty.
pub fn update(table: TableRef) -> (r: crate::stmt::update::Update)
    ensures
        r@ == (crate::stmt::update::UpdateV {
            with: None,
            table: table,
            set: Seq::empty(),
            from: None,
            filter: None,
            returns: None,
        }),
{
    crate::stmt::update::Update {
        with: None,
        table: clause::Update(table),
        set: clause::SetClause(Vec::new()),
        from: None,
        filter: None,
        returns: None,
    }
}

/// Combine two row-producing statements with a fixed set operator token.
fn binary_op(left: crate::stmt::result::Result, op: &'static str, right: crate::stmt::result::Result) -> (r:
    crate::stmt::binary::Binary)
    ensures
        r == (crate::stmt::binary::Binary {
            with: None,
            left: Box::new(left),
            op: op,
            right: Box::new(right),
        }),
{
    crate::stmt::binary::Binary { with: None, left: Box::new(left), op, right: Box::new(right) }
}

/// Construct a `UNION` of two row-producing statements.
pub fn union(left: crate::stmt::result::Result, right: crate::stmt::result::Result) -> (r:
    crate::stmt::binary::Binary)
    ensures
        r == (crate::stmt::binary::Binary {
            with: None,
            left: Box::new(left),
            op: "UNION",
            right: Box::new(right),
        }),
{
    binary_op(left, "UNION", right)
}

/// Construct a `UNION ALL` of two row-producing statements.
pub fn union_all(left: crate::stmt::result::Result, right: crate::stmt::result::Result) -> (r:
    crate::stmt::binary::Binary)
    ensures
        r == (crate::stmt::binary::Binary {
            with: None,
            left: Box::new(left),
            op: "UNION ALL",
            right: Box::new(right),
        }),
{
    binary_op(left, "UNION ALL", right)
}

/// Construct an `EXCEPT` of two row-producing statements.
pub fn except(left: crate::stmt::result::Result, right: crate::stmt::result::Result) -> (r:
    crate::stmt::binary::Binary)
    ensures
        r == (crate::stmt::binary::Binary {
            with: None,
            left: Box::new(left),
            op: "EXCEPT",
            right: Box::new(right),
        }),
{
    binary_op(left, "EXCEPT", right)
}

/// Construct an `EXCEPT ALL` of two row-producing statements.
pub fn except_all(left: crate::stmt::result::Result, right: crate::stmt::result::Result) -> (r:
    crate::stmt::binary::Binary)
    ensures
        r == (crate::stmt::binary::Binary {
            with: None,
            left: Box::new(left),
            op: "EXCEPT ALL",
            right: Box::new(right),
        }),
{
    binary_op(left, "EXCEPT ALL", right)
}

/// Construct an `INTERSECT` of two row-producing statements.
pub fn intersect(left: crate::stmt::result::Result, right: crate::stmt::result::Result) -> (r:
    crate::stmt::binary::Binary)
    ensures
        r == (crate::stmt::binary::Binary {
            with: None,
            left: Box::new(left),
            op: "INTERSECT",
            right: Box::new(right),
        }),
{
    binary_op(left, "INTERSECT", right)
}

/// Construct an `INTERSECT ALL` of two row-producing statements.
pub fn intersect_all(left: crate::stmt::result::Result, right: crate::stmt::result::Result) -> (r:
    crate::stmt::binary::Binary)
    ensures
        r == (crate::stmt::binary::Binary {
            with: None,
            left: Box::new(left),
            op: "INTERSECT ALL",
            right: Box::new(right),
        }),
{
    binary_op(left, "INTERSECT ALL", right)
}

impl Clone for Stmt {
    fn clone(&self) -> Self
        decreases self,
    {
        match self {
            Stmt::Insert(s) => Stmt::Insert(s.clone()),
            Stmt::Select(s) => Stmt::Select(s.clone()),
            Stmt::Update(s) => Stmt::Update(s.clone()),
            Stmt::Delete(s) => Stmt::Delete(s.clone()),
            Stmt::Values(s) => Stmt::Values(s.clone()),
            Stmt::Binary(s) => Stmt::Binary(s.clone()),
            Stmt::Result(s) => Stmt::Result(s.clone()),
        }
    }
}

} // verus!
