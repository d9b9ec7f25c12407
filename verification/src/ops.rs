//! Free constructor functions for expressions, aliases, sorts and joins.
//! Each is a pure, infallible transformation: given well-formed operands it
//! always produces the stated node.

use vstd::prelude::*;

use crate::expr::Expr;
use crate::item::Field;
use crate::item::Ident;
use crate::item::Order;
use crate::item::Sort;
use crate::item::Table;
use crate::table_expr::TableExpr;

verus! {

/// The infix node combining two expressions with an operator token.
pub open spec fn infix_expr(left: Expr, op: &'static str, right: Expr) -> Expr {
    Expr::Infix(Box::new(left), op, Box::new(right))
}

/// The binary AND of two conditions, as `filter` and `having` build it.
pub open spec fn and_expr(left: Expr, right: Expr) -> Expr {
    infix_expr(left, "AND", right)
}

/// Make an aliased field out of an expression.
pub fn as_field(expr: Expr, alias: Ident) -> (r: Field)
    ensures
        r == (Field { expr, alias: Some(alias) }),
{
    Field { expr, alias: Some(alias) }
}

/// Make an aliased table out of a table expression.
pub fn as_table(table: TableExpr, alias: Ident) -> (r: Table)
    ensures
        r == (Table { table, alias: Some(alias) }),
{
    Table { table, alias: Some(alias) }
}

/// Group an expression in parentheses.
pub fn paren(expr: Expr) -> (r: Expr)
    ensures
        r == Expr::Paren(Box::new(expr)),
{
    Expr::Paren(Box::new(expr))
}

/// Make an ascending sort out of an expression.
pub fn asc(expr: Expr) -> (r: Order)
    ensures
        r == Order(expr, Some(Sort::Asc)),
{
    Order(expr, Some(Sort::Asc))
}

/// Make a descending sort out of an expression.
pub fn desc(expr: Expr) -> (r: Order)
    ensures
        r == Order(expr, Some(Sort::Desc)),
{
    Order(expr, Some(Sort::Desc))
}

/// Construct a binary operation on expressions from its operator token.
pub fn binop(left: Expr, op: &'static str, right: Expr) -> (r: Expr)
    ensures
        r == infix_expr(left, op, right),
{
    Expr::Infix(Box::new(left), op, Box::new(right))
}

/// Construct a unary prefix operation on an expression.
pub fn preop(op: &'static str, expr: Expr) -> (r: Expr)
    ensures
        r == Expr::Prefix(op, Box::new(expr)),
{
    Expr::Prefix(op, Box::new(expr))
}

/// Construct a unary postfix operation on an expression.
pub fn postop(expr: Expr, op: &'static str) -> (r: Expr)
    ensures
        r == Expr::Postfix(Box::new(expr), op),
{
    Expr::Postfix(Box::new(expr), op)
}

/// Construct an addition between two expressions.
pub fn add(left: Expr, right: Expr) -> (r: Expr)
    ensures
        r == infix_expr(left, "+", right),
{
    binop(left, "+", right)
}

/// Construct a subtraction between two expressions.
pub fn sub(left: Expr, right: Expr) -> (r: Expr)
    ensures
        r == infix_expr(left, "-", right),
{
    binop(left, "-", right)
}

/// Construct a multiplication between two expressions.
pub fn mul(left: Expr, right: Expr) -> (r: Expr)
    ensures
        r == infix_expr(left, "*", right),
{
    binop(left, "*", right)
}

/// Construct a division between two expressions.
pub fn div(left: Expr, right: Expr) -> (r: Expr)
    ensures
        r == infix_expr(left, "/", right),
{
    binop(left, "/", right)
}

/// Construct a modulo operation between two expressions.
pub fn rem(left: Expr, right: Expr) -> (r: Expr)
    ensures
        r == infix_expr(left, "%", right),
{
    binop(left, "%", right)
}

/// Construct an equality comparison between two expressions.
pub fn eq(left: Expr, right: Expr) -> (r: Expr)
    ensures
        r == infix_expr(left, "=", right),
{
    binop(left, "=", right)
}

/// Construct an inequality comparison between two expressions.
pub fn ne(left: Expr, right: Expr) -> (r: Expr)
    ensures
        r == infix_expr(left, "<>", right),
{
    binop(left, "<>", right)
}

/// Construct a greater-than comparison between two expressions.
pub fn gt(left: Expr, right: Expr) -> (r: Expr)
    ensures
        r == infix_expr(left, ">", right),
{
    binop(left, ">", right)
}

/// Construct a greater-or-equal comparison between two expressions.
pub fn ge(left: Expr, right: Expr) -> (r: Expr)
    ensures
        r == infix_expr(left, ">=", right),
{
    binop(left, ">=", right)
}

/// Construct a less-than comparison between two expressions.
pub fn lt(left: Expr, right: Expr) -> (r: Expr)
    ensures
        r == infix_expr(left, "<", right),
{
    binop(left, "<", right)
}

/// Construct a less-or-equal comparison between two expressions.
pub fn le(left: Expr, right: Expr) -> (r: Expr)
    ensures
        r == infix_expr(left, "<=", right),
{
    binop(left, "<=", right)
}

/// Construct a boolean AND between two expressions.
pub fn and(left: Expr, right: Expr) -> (r: Expr)
    ensures
        r == and_expr(left, right),
{
    binop(left, "AND", right)
}

/// Construct a boolean OR between two expressions.
pub fn or(left: Expr, right: Expr) -> (r: Expr)
    ensures
        r == infix_expr(left, "OR", right),
{
    binop(left, "OR", right)
}

/// Construct a `LIKE` operation between two expressions.
pub fn like(left: Expr, right: Expr) -> (r: Expr)
    ensures
        r == infix_expr(left, "LIKE", right),
{
    binop(left, "LIKE", right)
}

/// Construct an `ILIKE` operation between two expressions.
pub fn ilike(left: Expr, right: Expr) -> (r: Expr)
    ensures
        r == infix_expr(left, "ILIKE", right),
{
    binop(left, "ILIKE", right)
}

/// Construct a boolean NOT of an expression.
pub fn not(expr: Expr) -> (r: Expr)
    ensures
        r == Expr::Prefix("NOT", Box::new(expr)),
{
    preop("NOT", expr)
}

/// Construct an `ISNULL` test of an expression.
pub fn isnull(expr: Expr) -> (r: Expr)
    ensures
        r == Expr::Postfix(Box::new(expr), "ISNULL"),
{
    postop(expr, "ISNULL")
}

/// Construct a `JOIN` of two table expressions on a condition.
pub fn join(left: TableExpr, right: TableExpr, cond: Expr) -> (r: TableExpr)
    ensures
        r == TableExpr::Join(Box::new(left), Box::new(right), cond),
{
    TableExpr::Join(Box::new(left), Box::new(right), cond)
}

/// Construct a `LEFT JOIN` of two table expressions on a condition.
pub fn left_join(left: TableExpr, right: TableExpr, cond: Expr) -> (r: TableExpr)
    ensures
        r == TableExpr::LeftJoin(Box::new(left), Box::new(right), cond),
{
    TableExpr::LeftJoin(Box::new(left), Box::new(right), cond)
}

/// Construct a `RIGHT JOIN` of two table expressions on a condition.
pub fn right_join(left: TableExpr, right: TableExpr, cond: Expr) -> (r: TableExpr)
    ensures
        r == TableExpr::RightJoin(Box::new(left), Box::new(right), cond),
{
    TableExpr::RightJoin(Box::new(left), Box::new(right), cond)
}

/// Construct a `FULL JOIN` of two table expressions on a condition.
pub fn full_join(left: TableExpr, right: TableExpr, cond: Expr) -> (r: TableExpr)
    ensures
        r == TableExpr::FullJoin(Box::new(left), Box::new(right), cond),
{
    TableExpr::FullJoin(Box::new(left), Box::new(right), cond)
}

/// Construct a `NATURAL JOIN` of two table expressions.
pub fn natural_join(left: TableExpr, right: TableExpr) -> (r: TableExpr)
    ensures
        r == TableExpr::NaturalJoin(Box::new(left), Box::new(right)),
{
    TableExpr::NaturalJoin(Box::new(left), Box::new(right))
}

/// Construct a `NATURAL LEFT JOIN` of two table expressions.
pub fn natural_left_join(left: TableExpr, right: TableExpr) -> (r: TableExpr)
    ensures
        r == TableExpr::NaturalLeftJoin(Box::new(left), Box::new(right)),
{
    TableExpr::NaturalLeftJoin(Box::new(left), Box::new(right))
}

/// Construct a `NATURAL RIGHT JOIN` of two table expressions.
pub fn natural_right_join(left: TableExpr, right: TableExpr) -> (r: TableExpr)
    ensures
        r == TableExpr::NaturalRightJoin(Box::new(left), Box::new(right)),
{
    TableExpr::NaturalRightJoin(Box::new(left), Box::new(right))
}

/// Construct a `NATURAL FULL JOIN` of two table expressions.
pub fn natural_full_join(left: TableExpr, right: TableExpr) -> (r: TableExpr)
    ensures
        r == TableExpr::NaturalFullJoin(Box::new(left), Box::new(right)),
{
    TableExpr::NaturalFullJoin(Box::new(left), Box::new(right))
}

/// Construct a `CROSS JOIN` of two table expressions.
pub fn cross_join(left: TableExpr, right: TableExpr) -> (r: TableExpr)
    ensures
        r == TableExpr::CrossJoin(Box::new(left), Box::new(right)),
{
    TableExpr::CrossJoin(Box::new(left), Box::new(right))
}

} // verus!
