//! A typed, dialect-aware SQL statement builder.
//!
//! The crate holds an abstract syntax tree for SQL expressions, table
//! expressions, clauses and statements, together with a renderer that
//! compiles a tree into SQL text plus an ordered list of bound values.
//! Every builder and the whole renderer are specified exactly: the emitted
//! text and the argument list are pinned, in left-to-right, depth-first
//! order, by the spec functions beside each type.

pub mod bind;
pub mod blanket;
pub mod build;
pub mod clause;
pub mod func;
pub mod expr;
pub mod item;
pub mod ops;
pub mod schema;
pub mod stmt;
pub mod table_expr;
pub mod utils;
pub mod value;

pub use func::func;
pub use func::{avg, count, max, min, sum};
pub use ops::{add, div, mul, rem, sub};
pub use ops::{and, not, or};
pub use ops::{as_field, as_table, asc, desc, paren};
pub use ops::{binop, postop, preop};
pub use ops::{eq, ge, gt, le, lt, ne};
pub use ops::{ilike, isnull, like};
pub use ops::{cross_join, join, natural_join};
pub use ops::{full_join, left_join, right_join};
pub use ops::{natural_full_join, natural_left_join, natural_right_join};
pub use schema::Schema;
pub use stmt::delete;
pub use stmt::insert;
pub use stmt::select;
pub use stmt::update;
pub use stmt::values;
pub use stmt::{except, except_all, intersect, intersect_all, union, union_all};
pub use utils::{join as join_strings, quote, quote_pretty};
