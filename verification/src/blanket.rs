//! Convenience layers: methods mirroring the free constructor functions,
//! purely for call-site ergonomics.  None has independent behavior.

use vstd::prelude::*;

use crate::expr::Expr;
use crate::item::Field;
use crate::item::Ident;
use crate::item::Order;
use crate::item::Sort;
use crate::ops::infix_expr;
use crate::stmt::binary::Binary;
use crate::table_expr::TableExpr;

verus! {

impl Expr {
    /// A short hand for the free `eq` constructor.
    pub fn eq(self, right: Expr) -> (r: Expr)
        ensures
            r == infix_expr(self, "=", right),
    {
        crate::ops::eq(self, right)
    }

    /// An alias for `eq`.
    pub fn equal(self, right: Expr) -> (r: Expr)
        ensures
            r == infix_expr(self, "=", right),
    {
        crate::ops::eq(self, right)
    }

    /// A short hand for the free `ne` constructor.
    pub fn ne(self, right: Expr) -> (r: Expr)
        ensures
            r == infix_expr(self, "<>", right),
    {
        crate::ops::ne(self, right)
    }

    /// An alias for `ne`.
    pub fn not_equal(self, right: Expr) -> (r: Expr)
        ensures
            r == infix_expr(self, "<>", right),
    {
        crate::ops::ne(self, right)
    }

    /// A short hand for the free `gt` constructor.
    pub fn gt(self, right: Expr) -> (r: Expr)
        ensures
            r == infix_expr(self, ">", right),
    {
        crate::ops::gt(self, right)
    }

    /// An alias for `gt`.
    pub fn greater_than(self, right: Expr) -> (r: Expr)
        ensures
            r == infix_expr(self, ">", right),
    {
        crate::ops::gt(self, right)
    }

    /// A short hand for the free `ge` constructor.
    pub fn ge(self, right: Expr) -> (r: Expr)
        ensures
            r == infix_expr(self, ">=", right),
    {
        crate::ops::ge(self, right)
    }

    /// An alias for `ge`.
    pub fn greater_equal(self, right: Expr) -> (r: Expr)
        ensures
            r == infix_expr(self, ">=", right),
    {
        crate::ops::ge(self, right)
    }

    /// A short hand for the free `lt` constructor.
    pub fn lt(self, right: Expr) -> (r: Expr)
        ensures
            r == infix_expr(self, "<", right),
    {
        crate::ops::lt(self, right)
    }

    /// An alias for `lt`.
    pub fn less_than(self, right: Expr) -> (r: Expr)
        ensures
            r == infix_expr(self, "<", right),
    {
        crate::ops::lt(self, right)
    }

    /// A short hand for the free `le` constructor.
    pub fn le(self, right: Expr) -> (r: Expr)
        ensures
            r == infix_expr(self, "<=", right),
    {
        crate::ops::le(self, right)
    }

    /// An alias for `le`.
    pub fn less_equal(self, right: Expr) -> (r: Expr)
        ensures
            r == infix_expr(self, "<=", right),
    {
        crate::ops::le(self, right)
    }

    /// A short hand for the free `and` constructor.
    pub fn and(self, right: Expr) -> (r: Expr)
        ensures
            r == infix_expr(self, "AND", right),
    {
        crate::ops::and(self, right)
    }

    /// A short hand for the free `or` constructor.
    pub fn or(self, right: Expr) -> (r: Expr)
        ensures
            r == infix_expr(self, "OR", right),
    {
        crate::ops::or(self, right)
    }

    /// A short hand for the free `like` constructor.
    pub fn like(self, right: Expr) -> (r: Expr)
        ensures
            r == infix_expr(self, "LIKE", right),
    {
        crate::ops::like(self, right)
    }

    /// A short hand for the free `ilike` constructor.
    pub fn ilike(self, right: Expr) -> (r: Expr)
        ensures
            r == infix_expr(self, "ILIKE", right),
    {
        crate::ops::ilike(self, right)
    }

    /// A short hand for the free `as_field` constructor.
    pub fn alias(self, alias: Ident) -> (r: Field)
        ensures
            r == (Field { expr: self, alias: Some(alias) }),
    {
        crate::ops::as_field(self, alias)
    }

    /// A short hand for the free `isnull` constructor.
    pub fn isnull(self) -> (r: Expr)
        ensures
            r == Expr::Postfix(Box::new(self), "ISNULL"),
    {
        crate::ops::isnull(self)
    }

    /// A short hand for the free `paren` constructor.
    pub fn paren(self) -> (r: Expr)
        ensures
            r == Expr::Paren(Box::new(self)),
    {
        crate::ops::paren(self)
    }

    /// A short hand for the free `asc` constructor.
    pub fn asc(self) -> (r: Order)
        ensures
            r == Order(self, Some(Sort::Asc)),
    {
        crate::ops::asc(self)
    }

    /// A short hand for the free `desc` constructor.
    pub fn desc(self) -> (r: Order)
        ensures
            r == Order(self, Some(Sort::Desc)),
    {
        crate::ops::desc(self)
    }
}

/// Extends a row-producing statement with the set-operation constructors.
pub trait ResultExt: Sized {
    /// This statement as a plain row-producing result.
    spec fn as_result(self) -> crate::stmt::result::Result;

    /// A short hand for the free `union` constructor.
    fn union(self, right: crate::stmt::result::Result) -> (r: Binary)
        ensures
            r == (Binary {
                with: None,
                left: Box::new(self.as_result()),
                op: "UNION",
                right: Box::new(right),
            }),
    ;

    /// A short hand for the free `union_all` constructor.
    fn union_all(self, right: crate::stmt::result::Result) -> (r: Binary)
        ensures
            r == (Binary {
                with: None,
                left: Box::new(self.as_result()),
                op: "UNION ALL",
                right: Box::new(right),
            }),
    ;

    /// A short hand for the free `except` constructor.
    fn except(self, right: crate::stmt::result::Result) -> (r: Binary)
        ensures
            r == (Binary {
                with: None,
                left: Box::new(self.as_result()),
                op: "EXCEPT",
                right: Box::new(right),
            }),
    ;

    /// A short hand for the free `except_all` constructor.
    fn except_all(self, right: crate::stmt::result::Result) -> (r: Binary)
        ensures
            r == (Binary {
                with: None,
                left: Box::new(self.as_result()),
                op: "EXCEPT ALL",
                right: Box::new(right),
            }),
    ;

    /// A short hand for the free `intersect` constructor.
    fn intersect(self, right: crate::stmt::result::Result) -> (r: Binary)
        ensures
            r == (Binary {
                with: None,
                left: Box::new(self.as_result()),
                op: "INTERSECT",
                right: Box::new(right),
            }),
    ;

    /// A short hand for the free `intersect_all` constructor.
    fn intersect_all(self, right: crate::stmt::result::Result) -> (r: Binary)
        ensures
            r == (Binary {
                with: None,
                left: Box::new(self.as_result()),
                op: "INTERSECT ALL",
                right: Box::new(right),
            }),
    ;
}

impl ResultExt for crate::stmt::select::Select {
    open spec fn as_result(self) -> crate::stmt::result::Result {
        crate::stmt::result::Result {
            with: None,
            data: crate::stmt::data::Data::Select(Box::new(self)),
            limit: None,
            offset: None,
        }
    }

    fn union(self, right: crate::stmt::result::Result) -> (r: Binary) {
        crate::stmt::union(self.into_result(), right)
    }

    fn union_all(self, right: crate::stmt::result::Result) -> (r: Binary) {
        crate::stmt::union_all(self.into_result(), right)
    }

    fn except(self, right: crate::stmt::result::Result) -> (r: Binary) {
        crate::stmt::except(self.into_result(), right)
    }

    fn except_all(self, right: crate::stmt::result::Result) -> (r: Binary) {
        crate::stmt::except_all(self.into_result(), right)
    }

    fn intersect(self, right: crate::stmt::result::Result) -> (r: Binary) {
        crate::stmt::intersect(self.into_result(), right)
    }

    fn intersect_all(self, right: crate::stmt::result::Result) -> (r: Binary) {
        crate::stmt::intersect_all(self.into_result(), right)
    }
}

impl ResultExt for crate::stmt::values::Values {
    open spec fn as_result(self) -> crate::stmt::result::Result {
        crate::stmt::result::Result {
            with: None,
            data: crate::stmt::data::Data::Values(self),
            limit: None,
            offset: None,
        }
    }

    fn union(self, right: crate::stmt::result::Result) -> (r: Binary) {
        crate::stmt::union(self.into_result(), right)
    }

    fn union_all(self, right: crate::stmt::result::Result) -> (r: Binary) {
        crate::stmt::union_all(self.into_result(), right)
    }

    fn except(self, right: crate::stmt::result::Result) -> (r: Binary) {
        crate::stmt::except(self.into_result(), right)
    }

    fn except_all(self, right: crate::stmt::result::Result) -> (r: Binary) {
        crate::stmt::except_all(self.into_result(), right)
    }

    fn intersect(self, right: crate::stmt::result::Result) -> (r: Binary) {
        crate::stmt::intersect(self.into_result(), right)
    }

    fn intersect_all(self, right: crate::stmt::result::Result) -> (r: Binary) {
        crate::stmt::intersect_all(self.into_result(), right)
    }
}

/// Extends a table expression with the join constructors.
pub trait TableExprExt: Sized {
    /// This value as a table expression.
    spec fn as_table_expr(self) -> TableExpr;

    /// A short hand for the free `join` constructor.
    fn join(self, right: TableExpr, cond: Expr) -> (r: TableExpr)
        ensures
            r == TableExpr::Join(Box::new(self.as_table_expr()), Box::new(right), cond),
    ;

    /// A short hand for the free `left_join` constructor.
    fn left_join(self, right: TableExpr, cond: Expr) -> (r: TableExpr)
        ensures
            r == TableExpr::LeftJoin(Box::new(self.as_table_expr()), Box::new(right), cond),
    ;

    /// A short hand for the free `right_join` constructor.
    fn right_join(self, right: TableExpr, cond: Expr) -> (r: TableExpr)
        ensures
            r == TableExpr::RightJoin(Box::new(self.as_table_expr()), Box::new(right), cond),
    ;

    /// A short hand for the free `full_join` constructor.
    fn full_join(self, right: TableExpr, cond: Expr) -> (r: TableExpr)
        ensures
            r == TableExpr::FullJoin(Box::new(self.as_table_expr()), Box::new(right), cond),
    ;

    /// A short hand for the free `cross_join` constructor.
    fn cross_join(self, right: TableExpr) -> (r: TableExpr)
        ensures
            r == TableExpr::CrossJoin(Box::new(self.as_table_expr()), Box::new(right)),
    ;

    /// A short hand for the free `natural_join` constructor.
    fn natural_join(self, right: TableExpr) -> (r: TableExpr)
        ensures
            r == TableExpr::NaturalJoin(Box::new(self.as_table_expr()), Box::new(right)),
    ;

    /// A short hand for the free `natural_left_join` constructor.
    fn natural_left_join(self, right: TableExpr) -> (r: TableExpr)
        ensures
            r == TableExpr::NaturalLeftJoin(Box::new(self.as_table_expr()), Box::new(right)),
    ;

    /// A short hand for the free `natural_right_join` constructor.
    fn natural_right_join(self, right: TableExpr) -> (r: TableExpr)
        ensures
            r == TableExpr::NaturalRightJoin(Box::new(self.as_table_expr()), Box::new(right)),
    ;

    /// A short hand for the free `natural_full_join` constructor.
    fn natural_full_join(self, right: TableExpr) -> (r: TableExpr)
        ensures
            r == TableExpr::NaturalFullJoin(Box::new(self.as_table_expr()), Box::new(right)),
    ;
}

impl TableExprExt for TableExpr {
    open spec fn as_table_expr(self) -> TableExpr {
        self
    }

    fn join(self, right: TableExpr, cond: Expr) -> (r: TableExpr) {
        crate::ops::join(self, right, cond)
    }

    fn left_join(self, right: TableExpr, cond: Expr) -> (r: TableExpr) {
        crate::ops::left_join(self, right, cond)
    }

    fn right_join(self, right: TableExpr, cond: Expr) -> (r: TableExpr) {
        crate::ops::right_join(self, right, cond)
    }

    fn full_join(self, right: TableExpr, cond: Expr) -> (r: TableExpr) {
        crate::ops::full_join(self, right, cond)
    }

    fn cross_join(self, right: TableExpr) -> (r: TableExpr) {
        crate::ops::cross_join(self, right)
    }

    fn natural_join(self, right: TableExpr) -> (r: TableExpr) {
        crate::ops::natural_join(self, right)
    }

    fn natural_left_join(self, right: TableExpr) -> (r: TableExpr) {
        crate::ops::natural_left_join(self, right)
    }

    fn natural_right_join(self, right: TableExpr) -> (r: TableExpr) {
        crate::ops::natural_right_join(self, right)
    }

    fn natural_full_join(self, right: TableExpr) -> (r: TableExpr) {
        crate::ops::natural_full_join(self, right)
    }
}

} // verus!
