//! Rendering of whole statements, and the compilation entry points.
//!
//! A statement render is a chain of small steps: the optional `WITH`
//! prefix, then each clause appended to an accumulated (text, values)
//! pair.  Every step threads the number of values emitted so far, so the
//! placeholder ordinals and the argument list stay aligned.

use vstd::prelude::*;

use crate::build::clause::delete_cl_render;
use crate::build::clause::from_cl_render;
use crate::build::clause::group_by_cl_render;
use crate::build::clause::having_cl_render;
use crate::build::clause::insert_cl_render;
use crate::build::clause::limit_cl_render;
use crate::build::clause::offset_cl_render;
use crate::build::clause::order_by_cl_render;
use crate::build::clause::returning_cl_render;
use crate::build::clause::select_cl_render;
use crate::build::clause::set_cl_render;
use crate::build::clause::update_cl_render;
use crate::build::clause::values_cl_render;
use crate::build::clause::with_cl_render;
use crate::build::clause::where_cl_render;
use crate::build::Dialect;
use crate::clause;
use crate::stmt::binary::Binary;
use crate::stmt::data::Data;
use crate::stmt::delete::Delete;
use crate::stmt::insert::Insert;
use crate::stmt::select::Select;
use crate::stmt::update::Update;
use crate::stmt::values::Values;
use crate::stmt::Stmt;
use crate::value::Value;

verus! {

/// The empty accumulator a statement render starts from.
pub open spec fn render_start() -> (Seq<char>, Seq<Value>) {
    (Seq::empty(), Seq::empty())
}

/// The optional `WITH` prefix: the clause and one space, or nothing.
pub open spec fn with_part(w: Option<clause::With>, d: Dialect, n: nat) -> (Seq<char>, Seq<Value>)
    decreases w,
{
    match w {
        None => render_start(),
        Some(c) => {
            let r = with_cl_render(c, d, n);
            (r.0 + " "@, r.1)
        },
    }
}

/// Append one already-rendered part to the accumulator.
pub open spec fn cat_part(acc: (Seq<char>, Seq<Value>), r: (Seq<char>, Seq<Value>)) -> (
    Seq<char>,
    Seq<Value>,
) {
    (acc.0 + r.0, acc.1 + r.1)
}

/// Append one already-rendered part after a separating space.
pub open spec fn cat_spaced(acc: (Seq<char>, Seq<Value>), r: (Seq<char>, Seq<Value>)) -> (
    Seq<char>,
    Seq<Value>,
) {
    (acc.0 + " "@ + r.0, acc.1 + r.1)
}

/// Append the `SELECT` clause.
pub open spec fn add_fields(
    acc: (Seq<char>, Seq<Value>),
    c: clause::Select,
    d: Dialect,
    n: nat,
) -> (Seq<char>, Seq<Value>)
    decreases c, 1int,
{
    cat_part(acc, select_cl_render(c, d, n + acc.1.len()))
}

/// Append the `FROM` clause when present.
pub open spec fn add_from(
    acc: (Seq<char>, Seq<Value>),
    c: Option<clause::From>,
    d: Dialect,
    n: nat,
) -> (Seq<char>, Seq<Value>)
    decreases c, 1int,
{
    match c {
        None => acc,
        Some(cl) => cat_spaced(acc, from_cl_render(cl, d, n + acc.1.len())),
    }
}

/// Append the `WHERE` clause when present.
pub open spec fn add_filter(
    acc: (Seq<char>, Seq<Value>),
    c: Option<clause::Where>,
    d: Dialect,
    n: nat,
) -> (Seq<char>, Seq<Value>)
    decreases c, 1int,
{
    match c {
        None => acc,
        Some(cl) => cat_spaced(acc, where_cl_render(cl, d, n + acc.1.len())),
    }
}

/// Append the `GROUP BY` clause when present.
pub open spec fn add_groups(
    acc: (Seq<char>, Seq<Value>),
    c: Option<clause::GroupBy>,
    d: Dialect,
    n: nat,
) -> (Seq<char>, Seq<Value>)
    decreases c, 1int,
{
    match c {
        None => acc,
        Some(cl) => cat_spaced(acc, group_by_cl_render(cl, d, n + acc.1.len())),
    }
}

/// Append the `HAVING` clause when present.
pub open spec fn add_having(
    acc: (Seq<char>, Seq<Value>),
    c: Option<clause::Having>,
    d: Dialect,
    n: nat,
) -> (Seq<char>, Seq<Value>)
    decreases c, 1int,
{
    match c {
        None => acc,
        Some(cl) => cat_spaced(acc, having_cl_render(cl, d, n + acc.1.len())),
    }
}

/// Append the `ORDER BY` clause when present.
pub open spec fn add_orders(
    acc: (Seq<char>, Seq<Value>),
    c: Option<clause::OrderBy>,
    d: Dialect,
    n: nat,
) -> (Seq<char>, Seq<Value>)
    decreases c, 1int,
{
    match c {
        None => acc,
        Some(cl) => cat_spaced(acc, order_by_cl_render(cl, d, n + acc.1.len())),
    }
}

/// Append the `RETURNING` clause when present.
pub open spec fn add_returns(
    acc: (Seq<char>, Seq<Value>),
    c: Option<clause::Returning>,
    d: Dialect,
    n: nat,
) -> (Seq<char>, Seq<Value>)
    decreases c, 1int,
{
    match c {
        None => acc,
        Some(cl) => cat_spaced(acc, returning_cl_render(cl, d, n + acc.1.len())),
    }
}

/// Append the `LIMIT` clause when present.
pub open spec fn add_limit(
    acc: (Seq<char>, Seq<Value>),
    c: Option<clause::Limit>,
    d: Dialect,
    n: nat,
) -> (Seq<char>, Seq<Value>) {
    match c {
        None => acc,
        Some(cl) => cat_spaced(acc, limit_cl_render(cl, d, n + acc.1.len())),
    }
}

/// Append the `OFFSET` clause when present.
pub open spec fn add_offset(
    acc: (Seq<char>, Seq<Value>),
    c: Option<clause::Offset>,
    d: Dialect,
    n: nat,
) -> (Seq<char>, Seq<Value>) {
    match c {
        None => acc,
        Some(cl) => cat_spaced(acc, offset_cl_render(cl, d, n + acc.1.len())),
    }
}

/// Append the `VALUES` clause.
pub open spec fn add_rows(
    acc: (Seq<char>, Seq<Value>),
    c: clause::Values,
    d: Dialect,
    n: nat,
) -> (Seq<char>, Seq<Value>)
    decreases c, 1int,
{
    cat_part(acc, values_cl_render(c, d, n + acc.1.len()))
}

/// Append the `SET` clause.
pub open spec fn add_set(
    acc: (Seq<char>, Seq<Value>),
    c: clause::SetClause,
    d: Dialect,
    n: nat,
) -> (Seq<char>, Seq<Value>)
    decreases c, 1int,
{
    cat_part(acc, set_cl_render(c, d, n + acc.1.len()))
}

/// Append the inserted or wrapped data form.
pub open spec fn add_data(acc: (Seq<char>, Seq<Value>), c: Data, d: Dialect, n: nat) -> (
    Seq<char>,
    Seq<Value>,
)
    decreases c, 1int,
{
    cat_part(acc, data_render(c, d, n + acc.1.len()))
}

/// Append one side of a set operation.
pub open spec fn add_result(
    acc: (Seq<char>, Seq<Value>),
    c: crate::stmt::result::Result,
    d: Dialect,
    n: nat,
) -> (Seq<char>, Seq<Value>)
    decreases c, 1int,
{
    cat_part(acc, result_render(c, d, n + acc.1.len()))
}

/// Append fixed text, emitting no values.
pub open spec fn add_text(acc: (Seq<char>, Seq<Value>), t: Seq<char>) -> (Seq<char>, Seq<Value>) {
    (acc.0 + t, acc.1)
}

/// Rendering of a `SELECT` statement: `WITH`, the field list, then each
/// present clause in fixed order, one space between present parts.
pub open spec fn select_stmt_render(s: Select, d: Dialect, n: nat) -> (Seq<char>, Seq<Value>)
    decreases s,
{
    let a = with_part(s.with, d, n);
    let a = add_fields(a, s.fields, d, n);
    let a = add_from(a, s.tables, d, n);
    let a = add_filter(a, s.filter, d, n);
    let a = add_groups(a, s.groups, d, n);
    let a = add_having(a, s.having, d, n);
    add_orders(a, s.orders, d, n)
}

/// Rendering of a `VALUES` statement.
pub open spec fn values_stmt_render(s: Values, d: Dialect, n: nat) -> (Seq<char>, Seq<Value>)
    decreases s,
{
    add_rows(with_part(s.with, d, n), s.rows, d, n)
}

/// Rendering of an `INSERT` statement: `WITH`, the target, the data, and
/// `RETURNING` when present.
pub open spec fn insert_stmt_render(s: Insert, d: Dialect, n: nat) -> (Seq<char>, Seq<Value>)
    decreases s,
{
    let a = with_part(s.with, d, n);
    let a = add_text(a, insert_cl_render(s.table, d) + " "@);
    let a = add_data(a, s.data, d, n);
    add_returns(a, s.returns, d, n)
}

/// Rendering of an `UPDATE` statement: `WITH`, the target, `SET`, then
/// `FROM`, `WHERE` and `RETURNING` when present.
pub open spec fn update_stmt_render(s: Update, d: Dialect, n: nat) -> (Seq<char>, Seq<Value>)
    decreases s,
{
    let a = with_part(s.with, d, n);
    let a = add_text(a, update_cl_render(s.table, d) + " "@);
    let a = add_set(a, s.set, d, n);
    let a = add_from(a, s.from, d, n);
    let a = add_filter(a, s.filter, d, n);
    add_returns(a, s.returns, d, n)
}

/// Rendering of a `DELETE` statement: `WITH`, the target, then `WHERE`
/// and `RETURNING` when present.
pub open spec fn delete_stmt_render(s: Delete, d: Dialect, n: nat) -> (Seq<char>, Seq<Value>)
    decreases s,
{
    let a = with_part(s.with, d, n);
    let a = add_text(a, delete_cl_render(s.table, d));
    let a = add_filter(a, s.filter, d, n);
    add_returns(a, s.returns, d, n)
}

/// Rendering of a set operation: `WITH`, the left side, the operator
/// token, the right side.
pub open spec fn binary_render(s: Binary, d: Dialect, n: nat) -> (Seq<char>, Seq<Value>)
    decreases s,
{
    let a = with_part(s.with, d, n);
    let a = add_result(a, *s.left, d, n);
    let a = add_text(a, " "@ + s.op@ + " "@);
    add_result(a, *s.right, d, n)
}

/// Rendering of a result wrapper: `WITH`, the data, then `LIMIT` and
/// `OFFSET` when present.
pub open spec fn result_render(s: crate::stmt::result::Result, d: Dialect, n: nat) -> (
    Seq<char>,
    Seq<Value>,
)
    decreases s, 0int,
{
    let a = with_part(s.with, d, n);
    let a = add_data(a, s.data, d, n);
    let a = add_limit(a, s.limit, d, n);
    add_offset(a, s.offset, d, n)
}

/// Rendering of a row-producing data form.
pub open spec fn data_render(s: Data, d: Dialect, n: nat) -> (Seq<char>, Seq<Value>)
    decreases s, 0int,
{
    match s {
        Data::Select(inner) => select_stmt_render(*inner, d, n),
        Data::Values(inner) => values_stmt_render(inner, d, n),
        Data::Binary(inner) => binary_render(inner, d, n),
    }
}

/// Rendering of any statement.
pub open spec fn stmt_render(s: Stmt, d: Dialect, n: nat) -> (Seq<char>, Seq<Value>)
    decreases s,
{
    match s {
        Stmt::Insert(inner) => insert_stmt_render(inner, d, n),
        Stmt::Select(inner) => select_stmt_render(inner, d, n),
        Stmt::Update(inner) => update_stmt_render(inner, d, n),
        Stmt::Delete(inner) => delete_stmt_render(inner, d, n),
        Stmt::Values(inner) => values_stmt_render(inner, d, n),
        Stmt::Binary(inner) => binary_render(inner, d, n),
        Stmt::Result(inner) => result_render(inner, d, n),
    }
}

/// Rendering is deterministic: the emitted text and argument list are a
/// function of the tree and the dialect alone, so rendering the same tree
/// twice yields byte-identical text and the same argument list.
pub proof fn lemma_render_deterministic(a: Stmt, b: Stmt, d: Dialect)
    requires
        a == b,
    ensures
        stmt_render(a, d, 0) == stmt_render(b, d, 0),
{
}

impl Select {
    /// Append this statement's rendering.
    #[verifier::rlimit(100)]
    #[verifier::spinoff_prover]
    pub(crate) fn build(self, d: &Dialect, sql: &mut String, args: &mut Vec<Value>)
        ensures
            final(sql)@ == old(sql)@ + select_stmt_render(self, *d, old(args)@.len()).0,
            final(args)@ == old(args)@ + select_stmt_render(self, *d, old(args)@.len()).1,
        decreases self,
    {
        let ghost n0 = old(args)@.len();
        let ghost s0 = self;
        let ghost mut done: (Seq<char>, Seq<Value>) = render_start();
        let Select { with, fields, tables, filter, groups, having, orders } = self;
        if let Some(w) = with {
            w.build(d, sql, args);
            sql.append(" ");
        }
        proof {
            if let Some(cl) = s0.with {
                let r = with_cl_render(cl, *d, n0);
                vstd::seq_lib::lemma_concat_associative(old(sql)@, r.0, " "@);
            } else {
                assert(old(sql)@ + Seq::<char>::empty() =~= old(sql)@);
                assert(old(args)@ + Seq::<Value>::empty() =~= old(args)@);
            }
            done = with_part(s0.with, *d, n0);
            assert(sql@ == old(sql)@ + done.0);
            assert(args@ == old(args)@ + done.1);
        }
        fields.build(d, sql, args);
        proof {
            let r = select_cl_render(s0.fields, *d, n0 + done.1.len());
            vstd::seq_lib::lemma_concat_associative(old(sql)@, done.0, r.0);
            vstd::seq_lib::lemma_concat_associative(old(args)@, done.1, r.1);
            done = add_fields(done, s0.fields, *d, n0);
            assert(sql@ == old(sql)@ + done.0);
            assert(args@ == old(args)@ + done.1);
        }
        if let Some(c) = tables {
            sql.append(" ");
            c.build(d, sql, args);
        }
        proof {
            if let Some(cl) = s0.tables {
                let r = from_cl_render(cl, *d, n0 + done.1.len());
                vstd::seq_lib::lemma_concat_associative(old(sql)@, done.0, " "@);
                vstd::seq_lib::lemma_concat_associative(old(sql)@, done.0 + " "@, r.0);
                vstd::seq_lib::lemma_concat_associative(old(args)@, done.1, r.1);
            }
            done = add_from(done, s0.tables, *d, n0);
            assert(sql@ == old(sql)@ + done.0);
            assert(args@ == old(args)@ + done.1);
        }
        if let Some(c) = filter {
            sql.append(" ");
            c.build(d, sql, args);
        }
        proof {
            if let Some(cl) = s0.filter {
                let r = where_cl_render(cl, *d, n0 + done.1.len());
                vstd::seq_lib::lemma_concat_associative(old(sql)@, done.0, " "@);
                vstd::seq_lib::lemma_concat_associative(old(sql)@, done.0 + " "@, r.0);
                vstd::seq_lib::lemma_concat_associative(old(args)@, done.1, r.1);
            }
            done = add_filter(done, s0.filter, *d, n0);
            assert(sql@ == old(sql)@ + done.0);
            assert(args@ == old(args)@ + done.1);
        }
        if let Some(c) = groups {
            sql.append(" ");
            c.build(d, sql, args);
        }
        proof {
            if let Some(cl) = s0.groups {
                let r = group_by_cl_render(cl, *d, n0 + done.1.len());
                vstd::seq_lib::lemma_concat_associative(old(sql)@, done.0, " "@);
                vstd::seq_lib::lemma_concat_associative(old(sql)@, done.0 + " "@, r.0);
                vstd::seq_lib::lemma_concat_associative(old(args)@, done.1, r.1);
            }
            done = add_groups(done, s0.groups, *d, n0);
            assert(sql@ == old(sql)@ + done.0);
            assert(args@ == old(args)@ + done.1);
        }
        if let Some(c) = having {
            sql.append(" ");
            c.build(d, sql, args);
        }
        proof {
            if let Some(cl) = s0.having {
                let r = having_cl_render(cl, *d, n0 + done.1.len());
                vstd::seq_lib::lemma_concat_associative(old(sql)@, done.0, " "@);
                vstd::seq_lib::lemma_concat_associative(old(sql)@, done.0 + " "@, r.0);
                vstd::seq_lib::lemma_concat_associative(old(args)@, done.1, r.1);
            }
            done = add_having(done, s0.having, *d, n0);
            assert(sql@ == old(sql)@ + done.0);
            assert(args@ == old(args)@ + done.1);
        }
        if let Some(c) = orders {
            sql.append(" ");
            c.build(d, sql, args);
        }
        proof {
            done = add_orders(done, s0.orders, *d, n0);
            assert(sql@ =~= old(sql)@ + done.0);
            assert(args@ =~= old(args)@ + done.1);
            assert(done == select_stmt_render(s0, *d, n0));
        }
    }
}

impl Values {
    /// Append this statement's rendering.
    #[verifier::rlimit(100)]
    #[verifier::spinoff_prover]
    pub(crate) fn build(self, d: &Dialect, sql: &mut String, args: &mut Vec<Value>)
        ensures
            final(sql)@ == old(sql)@ + values_stmt_render(self, *d, old(args)@.len()).0,
            final(args)@ == old(args)@ + values_stmt_render(self, *d, old(args)@.len()).1,
        decreases self,
    {
        let ghost n0 = old(args)@.len();
        let ghost s0 = self;
        let ghost mut done: (Seq<char>, Seq<Value>) = render_start();
        let Values { with, rows } = self;
        if let Some(w) = with {
            w.build(d, sql, args);
            sql.append(" ");
        }
        proof {
            if let Some(cl) = s0.with {
                let r = with_cl_render(cl, *d, n0);
                vstd::seq_lib::lemma_concat_associative(old(sql)@, r.0, " "@);
            } else {
                assert(old(sql)@ + Seq::<char>::empty() =~= old(sql)@);
                assert(old(args)@ + Seq::<Value>::empty() =~= old(args)@);
            }
            done = with_part(s0.with, *d, n0);
            assert(sql@ == old(sql)@ + done.0);
            assert(args@ == old(args)@ + done.1);
        }
        rows.build(d, sql, args);
        proof {
            done = add_rows(done, s0.rows, *d, n0);
            assert(sql@ =~= old(sql)@ + done.0);
            assert(args@ =~= old(args)@ + done.1);
            assert(done == values_stmt_render(s0, *d, n0));
        }
    }
}

impl Insert {
    /// Append this statement's rendering.
    #[verifier::rlimit(100)]
    #[verifier::spinoff_prover]
    pub(crate) fn build(self, d: &Dialect, sql: &mut String, args: &mut Vec<Value>)
        ensures
            final(sql)@ == old(sql)@ + insert_stmt_render(self, *d, old(args)@.len()).0,
            final(args)@ == old(args)@ + insert_stmt_render(self, *d, old(args)@.len()).1,
        decreases self,
    {
        let ghost n0 = old(args)@.len();
        let ghost s0 = self;
        let ghost mut done: (Seq<char>, Seq<Value>) = render_start();
        let Insert { with, table, data, returns } = self;
        if let Some(w) = with {
            w.build(d, sql, args);
            sql.append(" ");
        }
        proof {
            if let Some(cl) = s0.with {
                let r = with_cl_render(cl, *d, n0);
                vstd::seq_lib::lemma_concat_associative(old(sql)@, r.0, " "@);
            } else {
                assert(old(sql)@ + Seq::<char>::empty() =~= old(sql)@);
                assert(old(args)@ + Seq::<Value>::empty() =~= old(args)@);
            }
            done = with_part(s0.with, *d, n0);
            assert(sql@ == old(sql)@ + done.0);
            assert(args@ == old(args)@ + done.1);
        }
        table.build(d, sql);
        sql.append(" ");
        proof {
            vstd::seq_lib::lemma_concat_associative(old(sql)@, done.0, insert_cl_render(s0.table, *d));
            vstd::seq_lib::lemma_concat_associative(old(sql)@, done.0 + insert_cl_render(s0.table, *d), " "@);
            vstd::seq_lib::lemma_concat_associative(done.0, insert_cl_render(s0.table, *d), " "@);
            done = add_text(done, insert_cl_render(s0.table, *d) + " "@);
            assert(sql@ == old(sql)@ + done.0);
        }
        data.build(d, sql, args);
        proof {
            let r = data_render(s0.data, *d, n0 + done.1.len());
            vstd::seq_lib::lemma_concat_associative(old(sql)@, done.0, r.0);
            vstd::seq_lib::lemma_concat_associative(old(args)@, done.1, r.1);
            done = add_data(done, s0.data, *d, n0);
            assert(sql@ == old(sql)@ + done.0);
            assert(args@ == old(args)@ + done.1);
        }
        if let Some(c) = returns {
            sql.append(" ");
            c.build(d, sql, args);
        }
        proof {
            done = add_returns(done, s0.returns, *d, n0);
            assert(sql@ =~= old(sql)@ + done.0);
            assert(args@ =~= old(args)@ + done.1);
            assert(done == insert_stmt_render(s0, *d, n0));
        }
    }
}

impl Update {
    /// Append this statement's rendering.
    #[verifier::rlimit(100)]
    #[verifier::spinoff_prover]
    pub(crate) fn build(self, d: &Dialect, sql: &mut String, args: &mut Vec<Value>)
        ensures
            final(sql)@ == old(sql)@ + update_stmt_render(self, *d, old(args)@.len()).0,
            final(args)@ == old(args)@ + update_stmt_render(self, *d, old(args)@.len()).1,
        decreases self,
    {
        let ghost n0 = old(args)@.len();
        let ghost s0 = self;
        let ghost mut done: (Seq<char>, Seq<Value>) = render_start();
        let Update { with, table, set, from, filter, returns } = self;
        if let Some(w) = with {
            w.build(d, sql, args);
            sql.append(" ");
        }
        proof {
            if let Some(cl) = s0.with {
                let r = with_cl_render(cl, *d, n0);
                vstd::seq_lib::lemma_concat_associative(old(sql)@, r.0, " "@);
            } else {
                assert(old(sql)@ + Seq::<char>::empty() =~= old(sql)@);
                assert(old(args)@ + Seq::<Value>::empty() =~= old(args)@);
            }
            done = with_part(s0.with, *d, n0);
            assert(sql@ == old(sql)@ + done.0);
            assert(args@ == old(args)@ + done.1);
        }
        table.build(d, sql);
        sql.append(" ");
        proof {
            vstd::seq_lib::lemma_concat_associative(old(sql)@, done.0, update_cl_render(s0.table, *d));
            vstd::seq_lib::lemma_concat_associative(old(sql)@, done.0 + update_cl_render(s0.table, *d), " "@);
            vstd::seq_lib::lemma_concat_associative(done.0, update_cl_render(s0.table, *d), " "@);
            done = add_text(done, update_cl_render(s0.table, *d) + " "@);
            assert(sql@ == old(sql)@ + done.0);
        }
        set.build(d, sql, args);
        proof {
            let r = set_cl_render(s0.set, *d, n0 + done.1.len());
            vstd::seq_lib::lemma_concat_associative(old(sql)@, done.0, r.0);
            vstd::seq_lib::lemma_concat_associative(old(args)@, done.1, r.1);
            done = add_set(done, s0.set, *d, n0);
            assert(sql@ == old(sql)@ + done.0);
            assert(args@ == old(args)@ + done.1);
        }
        if let Some(c) = from {
            sql.append(" ");
            c.build(d, sql, args);
        }
        proof {
            if let Some(cl) = s0.from {
                let r = from_cl_render(cl, *d, n0 + done.1.len());
                vstd::seq_lib::lemma_concat_associative(old(sql)@, done.0, " "@);
                vstd::seq_lib::lemma_concat_associative(old(sql)@, done.0 + " "@, r.0);
                vstd::seq_lib::lemma_concat_associative(old(args)@, done.1, r.1);
            }
            done = add_from(done, s0.from, *d, n0);
            assert(sql@ == old(sql)@ + done.0);
            assert(args@ == old(args)@ + done.1);
        }
        if let Some(c) = filter {
            sql.append(" ");
            c.build(d, sql, args);
        }
        proof {
            if let Some(cl) = s0.filter {
                let r = where_cl_render(cl, *d, n0 + done.1.len());
                vstd::seq_lib::lemma_concat_associative(old(sql)@, done.0, " "@);
                vstd::seq_lib::lemma_concat_associative(old(sql)@, done.0 + " "@, r.0);
                vstd::seq_lib::lemma_concat_associative(old(args)@, done.1, r.1);
            }
            done = add_filter(done, s0.filter, *d, n0);
            assert(sql@ == old(sql)@ + done.0);
            assert(args@ == old(args)@ + done.1);
        }
        if let Some(c) = returns {
            sql.append(" ");
            c.build(d, sql, args);
        }
        proof {
            done = add_returns(done, s0.returns, *d, n0);
            assert(sql@ =~= old(sql)@ + done.0);
            assert(args@ =~= old(args)@ + done.1);
            assert(done == update_stmt_render(s0, *d, n0));
        }
    }
}

impl Delete {
    /// Append this statement's rendering.
    #[verifier::rlimit(100)]
    #[verifier::spinoff_prover]
    pub(crate) fn build(self, d: &Dialect, sql: &mut String, args: &mut Vec<Value>)
        ensures
            final(sql)@ == old(sql)@ + delete_stmt_render(self, *d, old(args)@.len()).0,
            final(args)@ == old(args)@ + delete_stmt_render(self, *d, old(args)@.len()).1,
        decreases self,
    {
        let ghost n0 = old(args)@.len();
        let ghost s0 = self;
        let ghost mut done: (Seq<char>, Seq<Value>) = render_start();
        let Delete { with, table, filter, returns } = self;
        if let Some(w) = with {
            w.build(d, sql, args);
            sql.append(" ");
        }
        proof {
            if let Some(cl) = s0.with {
                let r = with_cl_render(cl, *d, n0);
                vstd::seq_lib::lemma_concat_associative(old(sql)@, r.0, " "@);
            } else {
                assert(old(sql)@ + Seq::<char>::empty() =~= old(sql)@);
                assert(old(args)@ + Seq::<Value>::empty() =~= old(args)@);
            }
            done = with_part(s0.with, *d, n0);
            assert(sql@ == old(sql)@ + done.0);
            assert(args@ == old(args)@ + done.1);
        }
        table.build(d, sql);
        proof {
            vstd::seq_lib::lemma_concat_associative(old(sql)@, done.0, delete_cl_render(s0.table, *d));
            done = add_text(done, delete_cl_render(s0.table, *d));
            assert(sql@ == old(sql)@ + done.0);
        }
        if let Some(c) = filter {
            sql.append(" ");
            c.build(d, sql, args);
        }
        proof {
            if let Some(cl) = s0.filter {
                let r = where_cl_render(cl, *d, n0 + done.1.len());
                vstd::seq_lib::lemma_concat_associative(old(sql)@, done.0, " "@);
                vstd::seq_lib::lemma_concat_associative(old(sql)@, done.0 + " "@, r.0);
                vstd::seq_lib::lemma_concat_associative(old(args)@, done.1, r.1);
            }
            done = add_filter(done, s0.filter, *d, n0);
            assert(sql@ == old(sql)@ + done.0);
            assert(args@ == old(args)@ + done.1);
        }
        if let Some(c) = returns {
            sql.append(" ");
            c.build(d, sql, args);
        }
        proof {
            done = add_returns(done, s0.returns, *d, n0);
            assert(sql@ =~= old(sql)@ + done.0);
            assert(args@ =~= old(args)@ + done.1);
            assert(done == delete_stmt_render(s0, *d, n0));
        }
    }
}

impl Binary {
    /// Append this statement's rendering.
    #[verifier::rlimit(100)]
    #[verifier::spinoff_prover]
    pub(crate) fn build(self, d: &Dialect, sql: &mut String, args: &mut Vec<Value>)
        ensures
            final(sql)@ == old(sql)@ + binary_render(self, *d, old(args)@.len()).0,
            final(args)@ == old(args)@ + binary_render(self, *d, old(args)@.len()).1,
        decreases self,
    {
        let ghost n0 = old(args)@.len();
        let ghost s0 = self;
        let ghost mut done: (Seq<char>, Seq<Value>) = render_start();
        let Binary { with, left, op, right } = self;
        if let Some(w) = with {
            w.build(d, sql, args);
            sql.append(" ");
        }
        proof {
            if let Some(cl) = s0.with {
                let r = with_cl_render(cl, *d, n0);
                vstd::seq_lib::lemma_concat_associative(old(sql)@, r.0, " "@);
            } else {
                assert(old(sql)@ + Seq::<char>::empty() =~= old(sql)@);
                assert(old(args)@ + Seq::<Value>::empty() =~= old(args)@);
            }
            done = with_part(s0.with, *d, n0);
            assert(sql@ == old(sql)@ + done.0);
            assert(args@ == old(args)@ + done.1);
        }
        (*left).build(d, sql, args);
        proof {
            done = add_result(done, *s0.left, *d, n0);
            assert(sql@ =~= old(sql)@ + done.0);
            assert(args@ =~= old(args)@ + done.1);
        }
        sql.append(" ");
        sql.append(op);
        sql.append(" ");
        proof {
            done = add_text(done, " "@ + s0.op@ + " "@);
            assert(sql@ =~= old(sql)@ + done.0);
        }
        (*right).build(d, sql, args);
        proof {
            done = add_result(done, *s0.right, *d, n0);
            assert(sql@ =~= old(sql)@ + done.0);
            assert(args@ =~= old(args)@ + done.1);
            assert(done == binary_render(s0, *d, n0));
        }
    }
}

impl crate::stmt::result::Result {
    /// Append this statement's rendering.
    #[verifier::rlimit(100)]
    #[verifier::spinoff_prover]
    pub(crate) fn build(self, d: &Dialect, sql: &mut String, args: &mut Vec<Value>)
        ensures
            final(sql)@ == old(sql)@ + result_render(self, *d, old(args)@.len()).0,
            final(args)@ == old(args)@ + result_render(self, *d, old(args)@.len()).1,
        decreases self,
    {
        let ghost n0 = old(args)@.len();
        let ghost s0 = self;
        let ghost mut done: (Seq<char>, Seq<Value>) = render_start();
        let crate::stmt::result::Result { with, data, limit, offset } = self;
        if let Some(w) = with {
            w.build(d, sql, args);
            sql.append(" ");
        }
        proof {
            if let Some(cl) = s0.with {
                let r = with_cl_render(cl, *d, n0);
                vstd::seq_lib::lemma_concat_associative(old(sql)@, r.0, " "@);
            } else {
                assert(old(sql)@ + Seq::<char>::empty() =~= old(sql)@);
                assert(old(args)@ + Seq::<Value>::empty() =~= old(args)@);
            }
            done = with_part(s0.with, *d, n0);
            assert(sql@ == old(sql)@ + done.0);
            assert(args@ == old(args)@ + done.1);
        }
        data.build(d, sql, args);
        proof {
            let r = data_render(s0.data, *d, n0 + done.1.len());
            vstd::seq_lib::lemma_concat_associative(old(sql)@, done.0, r.0);
            vstd::seq_lib::lemma_concat_associative(old(args)@, done.1, r.1);
            done = add_data(done, s0.data, *d, n0);
            assert(sql@ == old(sql)@ + done.0);
            assert(args@ == old(args)@ + done.1);
        }
        if let Some(c) = limit {
            sql.append(" ");
            c.build(d, sql, args);
        }
        proof {
            if let Some(cl) = s0.limit {
                let r = limit_cl_render(cl, *d, n0 + done.1.len());
                vstd::seq_lib::lemma_concat_associative(old(sql)@, done.0, " "@);
                vstd::seq_lib::lemma_concat_associative(old(sql)@, done.0 + " "@, r.0);
                vstd::seq_lib::lemma_concat_associative(old(args)@, done.1, r.1);
            }
            done = add_limit(done, s0.limit, *d, n0);
            assert(sql@ == old(sql)@ + done.0);
            assert(args@ == old(args)@ + done.1);
        }
        if let Some(c) = offset {
            sql.append(" ");
            c.build(d, sql, args);
        }
        proof {
            done = add_offset(done, s0.offset, *d, n0);
            assert(sql@ =~= old(sql)@ + done.0);
            assert(args@ =~= old(args)@ + done.1);
            assert(done == result_render(s0, *d, n0));
        }
    }
}

impl Data {
    /// Append this data form's rendering.
    pub(crate) fn build(self, d: &Dialect, sql: &mut String, args: &mut Vec<Value>)
        ensures
            final(sql)@ == old(sql)@ + data_render(self, *d, old(args)@.len()).0,
            final(args)@ == old(args)@ + data_render(self, *d, old(args)@.len()).1,
        decreases self,
    {
        match self {
            Data::Select(inner) => (*inner).build(d, sql, args),
            Data::Values(inner) => inner.build(d, sql, args),
            Data::Binary(inner) => inner.build(d, sql, args),
        }
    }
}

impl Stmt {
    /// Append this statement's rendering.
    pub(crate) fn build(self, d: &Dialect, sql: &mut String, args: &mut Vec<Value>)
        ensures
            final(sql)@ == old(sql)@ + stmt_render(self, *d, old(args)@.len()).0,
            final(args)@ == old(args)@ + stmt_render(self, *d, old(args)@.len()).1,
        decreases self,
    {
        match self {
            Stmt::Insert(inner) => inner.build(d, sql, args),
            Stmt::Select(inner) => inner.build(d, sql, args),
            Stmt::Update(inner) => inner.build(d, sql, args),
            Stmt::Delete(inner) => inner.build(d, sql, args),
            Stmt::Values(inner) => inner.build(d, sql, args),
            Stmt::Binary(inner) => inner.build(d, sql, args),
            Stmt::Result(inner) => inner.build(d, sql, args),
        }
    }

    /// Render this statement under the dialect: the SQL text, and the
    /// value list whose order matches the placeholders left to right.
    pub fn to_sql(self, d: Dialect) -> (r: (String, Vec<Value>))
        ensures
            r.0@ == stmt_render(self, d, 0).0,
            r.1@ == stmt_render(self, d, 0).1,
    {
        let mut sql = String::new();
        let mut args: Vec<Value> = Vec::new();
        self.build(&d, &mut sql, &mut args);
        proof {
            assert(sql@ =~= stmt_render(self, d, 0).0);
            assert(args@ =~= stmt_render(self, d, 0).1);
        }
        (sql, args)
    }

    /// Compile this statement under the dialect into a query: the SQL
    /// text plus the positional argument list.
    pub fn compile(self, d: Dialect) -> (r: crate::build::Query)
        ensures
            r.sql@ == stmt_render(self, d, 0).0,
            r.args@ == stmt_render(self, d, 0).1,
            r.persistent == false,
    {
        let (sql, args) = self.to_sql(d);
        crate::build::Query { sql, args, persistent: false }
    }

    /// The human-readable inline rendering of this statement.
    pub fn sql_string(self) -> (r: String)
        ensures
            r@ == stmt_render(self, Dialect::display_spec(), 0).0,
    {
        let (sql, _) = self.to_sql(Dialect::display());
        sql
    }
}

impl Select {
    /// The human-readable inline rendering.
    pub fn sql_string(self) -> (r: String)
        ensures
            r@ == select_stmt_render(self, Dialect::display_spec(), 0).0,
    {
        let mut sql = String::new();
        let mut args: Vec<Value> = Vec::new();
        self.build(&Dialect::display(), &mut sql, &mut args);
        proof {
            assert(sql@ =~= select_stmt_render(self, Dialect::display_spec(), 0).0);
        }
        sql
    }
}

impl Insert {
    /// The human-readable inline rendering.
    pub fn sql_string(self) -> (r: String)
        ensures
            r@ == insert_stmt_render(self, Dialect::display_spec(), 0).0,
    {
        let mut sql = String::new();
        let mut args: Vec<Value> = Vec::new();
        self.build(&Dialect::display(), &mut sql, &mut args);
        proof {
            assert(sql@ =~= insert_stmt_render(self, Dialect::display_spec(), 0).0);
        }
        sql
    }
}

impl Update {
    /// The human-readable inline rendering.
    pub fn sql_string(self) -> (r: String)
        ensures
            r@ == update_stmt_render(self, Dialect::display_spec(), 0).0,
    {
        let mut sql = String::new();
        let mut args: Vec<Value> = Vec::new();
        self.build(&Dialect::display(), &mut sql, &mut args);
        proof {
            assert(sql@ =~= update_stmt_render(self, Dialect::display_spec(), 0).0);
        }
        sql
    }
}

impl Delete {
    /// The human-readable inline rendering.
    pub fn sql_string(self) -> (r: String)
        ensures
            r@ == delete_stmt_render(self, Dialect::display_spec(), 0).0,
    {
        let mut sql = String::new();
        let mut args: Vec<Value> = Vec::new();
        self.build(&Dialect::display(), &mut sql, &mut args);
        proof {
            assert(sql@ =~= delete_stmt_render(self, Dialect::display_spec(), 0).0);
        }
        sql
    }
}

impl Values {
    /// The human-readable inline rendering.
    pub fn sql_string(self) -> (r: String)
        ensures
            r@ == values_stmt_render(self, Dialect::display_spec(), 0).0,
    {
        let mut sql = String::new();
        let mut args: Vec<Value> = Vec::new();
        self.build(&Dialect::display(), &mut sql, &mut args);
        proof {
            assert(sql@ =~= values_stmt_render(self, Dialect::display_spec(), 0).0);
        }
        sql
    }
}

impl Binary {
    /// The human-readable inline rendering.
    pub fn sql_string(self) -> (r: String)
        ensures
            r@ == binary_render(self, Dialect::display_spec(), 0).0,
    {
        let mut sql = String::new();
        let mut args: Vec<Value> = Vec::new();
        self.build(&Dialect::display(), &mut sql, &mut args);
        proof {
            assert(sql@ =~= binary_render(self, Dialect::display_spec(), 0).0);
        }
        sql
    }
}

impl crate::stmt::result::Result {
    /// The human-readable inline rendering.
    pub fn sql_string(self) -> (r: String)
        ensures
            r@ == result_render(self, Dialect::display_spec(), 0).0,
    {
        let mut sql = String::new();
        let mut args: Vec<Value> = Vec::new();
        self.build(&Dialect::display(), &mut sql, &mut args);
        proof {
            assert(sql@ =~= result_render(self, Dialect::display_spec(), 0).0);
        }
        sql
    }
}

/// An optional `WITH` clause whose entries hold no placeholder token.
pub open spec fn opt_with_plain(w: Option<clause::With>) -> bool
    decreases w,
{
    match w {
        None => true,
        Some(c) => crate::build::item::ctes_plain(c.1@),
    }
}

/// A `SELECT` statement whose identifiers and operator tokens hold no
/// placeholder token.
pub open spec fn select_plain(s: Select) -> bool
    decreases s,
{
    opt_with_plain(s.with) && crate::build::item::fields_plain(s.fields.0@) && (match s.tables {
        None => true,
        Some(c) => crate::build::item::tables_plain(c.0@),
    }) && (match s.filter {
        None => true,
        Some(c) => crate::build::expr::expr_plain(c.0),
    }) && (match s.groups {
        None => true,
        Some(c) => crate::build::expr::exprs_plain(c.0@),
    }) && (match s.having {
        None => true,
        Some(c) => crate::build::expr::expr_plain(c.0),
    }) && (match s.orders {
        None => true,
        Some(c) => crate::build::item::orders_plain(c.0@),
    })
}

/// A `VALUES` statement whose rows hold no placeholder token.
pub open spec fn values_plain(s: Values) -> bool
    decreases s,
{
    opt_with_plain(s.with) && crate::build::item::rows_plain(s.rows.0@)
}

/// An `INSERT` statement whose identifiers hold no placeholder token.
pub open spec fn insert_plain(s: Insert) -> bool
    decreases s,
{
    opt_with_plain(s.with) && crate::build::expr::table_ref_plain(s.table.0)
        && crate::build::item::idents_plain(s.table.1@) && data_plain(s.data) && (match s.returns {
        None => true,
        Some(c) => crate::build::item::fields_plain(c.0@),
    })
}

/// An `UPDATE` statement whose identifiers and operator tokens hold no
/// placeholder token.
pub open spec fn update_plain(s: Update) -> bool
    decreases s,
{
    opt_with_plain(s.with) && crate::build::expr::table_ref_plain(s.table.0)
        && crate::build::item::sets_plain(s.set.0@) && (match s.from {
        None => true,
        Some(c) => crate::build::item::tables_plain(c.0@),
    }) && (match s.filter {
        None => true,
        Some(c) => crate::build::expr::expr_plain(c.0),
    }) && (match s.returns {
        None => true,
        Some(c) => crate::build::item::fields_plain(c.0@),
    })
}

/// A `DELETE` statement whose identifiers and operator tokens hold no
/// placeholder token.
pub open spec fn delete_plain(s: Delete) -> bool
    decreases s,
{
    opt_with_plain(s.with) && crate::build::expr::table_ref_plain(s.table.0) && (match s.filter {
        None => true,
        Some(c) => crate::build::expr::expr_plain(c.0),
    }) && (match s.returns {
        None => true,
        Some(c) => crate::build::item::fields_plain(c.0@),
    })
}

/// A set operation whose sides and operator token hold no placeholder
/// token.
pub open spec fn binary_plain(s: Binary) -> bool
    decreases s,
{
    opt_with_plain(s.with) && result_plain(*s.left) && crate::utils::count_char(s.op@, '?') == 0
        && result_plain(*s.right)
}

/// A result wrapper whose data holds no placeholder token.
pub open spec fn result_plain(s: crate::stmt::result::Result) -> bool
    decreases s,
{
    opt_with_plain(s.with) && data_plain(s.data)
}

/// A data form whose identifiers and operator tokens hold no placeholder
/// token.
pub open spec fn data_plain(s: Data) -> bool
    decreases s,
{
    match s {
        Data::Select(inner) => select_plain(*inner),
        Data::Values(inner) => values_plain(inner),
        Data::Binary(inner) => binary_plain(inner),
    }
}

/// A statement whose identifiers and operator tokens hold no placeholder
/// token.
pub open spec fn stmt_plain(s: Stmt) -> bool
    decreases s,
{
    match s {
        Stmt::Insert(inner) => insert_plain(inner),
        Stmt::Select(inner) => select_plain(inner),
        Stmt::Update(inner) => update_plain(inner),
        Stmt::Delete(inner) => delete_plain(inner),
        Stmt::Values(inner) => values_plain(inner),
        Stmt::Binary(inner) => binary_plain(inner),
        Stmt::Result(inner) => result_plain(inner),
    }
}

/// The placeholder-count law for a `SELECT` statement.
#[verifier::rlimit(100)]
pub(crate) proof fn lemma_select_stmt_count(s: Select, d: Dialect, n: nat)
    requires
        d.params == crate::build::Params::Question,
        d.quote != '?',
        select_plain(s),
    ensures
        crate::utils::count_char(select_stmt_render(s, d, n).0, '?') == select_stmt_render(s, d, n).1.len(),
    decreases s,
{
    crate::build::lemma_keyword_counts();
    crate::build::expr::lemma_sep_counts();
    let a0 = with_part(s.with, d, n);
    match s.with {
        None => {
        },
        Some(c) => {
            crate::build::clause::lemma_with_cl_count(c, d, n);
            crate::utils::lemma_count_char_add(with_cl_render(c, d, n).0, " "@, '?');
        },
    }
    assert(crate::utils::count_char(a0.0, '?') == a0.1.len());
    let a1 = add_fields(a0, s.fields, d, n);
    crate::build::clause::lemma_select_cl_count(s.fields, d, n + a0.1.len());
    crate::utils::lemma_count_char_add(
        a0.0,
        select_cl_render(s.fields, d, n + a0.1.len()).0,
        '?',
    );
    assert(crate::utils::count_char(a1.0, '?') == a1.1.len());
    let a2 = add_from(a1, s.tables, d, n);
    match s.tables {
        None => {
        },
        Some(c) => {
            crate::build::clause::lemma_from_cl_count(c, d, n + a1.1.len());
            crate::utils::lemma_count_char_add(a1.0, " "@, '?');
            crate::utils::lemma_count_char_add(
                a1.0 + " "@,
                from_cl_render(c, d, n + a1.1.len()).0,
                '?',
            );
        },
    }
    assert(crate::utils::count_char(a2.0, '?') == a2.1.len());
    let a3 = add_filter(a2, s.filter, d, n);
    match s.filter {
        None => {
        },
        Some(c) => {
            crate::build::clause::lemma_where_cl_count(c, d, n + a2.1.len());
            crate::utils::lemma_count_char_add(a2.0, " "@, '?');
            crate::utils::lemma_count_char_add(
                a2.0 + " "@,
                where_cl_render(c, d, n + a2.1.len()).0,
                '?',
            );
        },
    }
    assert(crate::utils::count_char(a3.0, '?') == a3.1.len());
    let a4 = add_groups(a3, s.groups, d, n);
    match s.groups {
        None => {
        },
        Some(c) => {
            crate::build::clause::lemma_group_by_cl_count(c, d, n + a3.1.len());
            crate::utils::lemma_count_char_add(a3.0, " "@, '?');
            crate::utils::lemma_count_char_add(
                a3.0 + " "@,
                group_by_cl_render(c, d, n + a3.1.len()).0,
                '?',
            );
        },
    }
    assert(crate::utils::count_char(a4.0, '?') == a4.1.len());
    let a5 = add_having(a4, s.having, d, n);
    match s.having {
        None => {
        },
        Some(c) => {
            crate::build::clause::lemma_having_cl_count(c, d, n + a4.1.len());
            crate::utils::lemma_count_char_add(a4.0, " "@, '?');
            crate::utils::lemma_count_char_add(
                a4.0 + " "@,
                having_cl_render(c, d, n + a4.1.len()).0,
                '?',
            );
        },
    }
    assert(crate::utils::count_char(a5.0, '?') == a5.1.len());
    let a6 = add_orders(a5, s.orders, d, n);
    match s.orders {
        None => {
        },
        Some(c) => {
            crate::build::clause::lemma_order_by_cl_count(c, d, n + a5.1.len());
            crate::utils::lemma_count_char_add(a5.0, " "@, '?');
            crate::utils::lemma_count_char_add(
                a5.0 + " "@,
                order_by_cl_render(c, d, n + a5.1.len()).0,
                '?',
            );
        },
    }
    assert(crate::utils::count_char(a6.0, '?') == a6.1.len());
}

/// The placeholder-count law for a `VALUES` statement.
#[verifier::rlimit(100)]
pub(crate) proof fn lemma_values_stmt_count(s: Values, d: Dialect, n: nat)
    requires
        d.params == crate::build::Params::Question,
        d.quote != '?',
        values_plain(s),
    ensures
        crate::utils::count_char(values_stmt_render(s, d, n).0, '?') == values_stmt_render(s, d, n).1.len(),
    decreases s,
{
    crate::build::lemma_keyword_counts();
    crate::build::expr::lemma_sep_counts();
    let a0 = with_part(s.with, d, n);
    match s.with {
        None => {
        },
        Some(c) => {
            crate::build::clause::lemma_with_cl_count(c, d, n);
            crate::utils::lemma_count_char_add(with_cl_render(c, d, n).0, " "@, '?');
        },
    }
    assert(crate::utils::count_char(a0.0, '?') == a0.1.len());
    let a1 = add_rows(a0, s.rows, d, n);
    crate::build::clause::lemma_values_cl_count(s.rows, d, n + a0.1.len());
    crate::utils::lemma_count_char_add(
        a0.0,
        values_cl_render(s.rows, d, n + a0.1.len()).0,
        '?',
    );
    assert(crate::utils::count_char(a1.0, '?') == a1.1.len());
}

/// The placeholder-count law for a an `INSERT` statement.
#[verifier::rlimit(100)]
pub(crate) proof fn lemma_insert_stmt_count(s: Insert, d: Dialect, n: nat)
    requires
        d.params == crate::build::Params::Question,
        d.quote != '?',
        insert_plain(s),
    ensures
        crate::utils::count_char(insert_stmt_render(s, d, n).0, '?') == insert_stmt_render(s, d, n).1.len(),
    decreases s,
{
    crate::build::lemma_keyword_counts();
    crate::build::expr::lemma_sep_counts();
    let a0 = with_part(s.with, d, n);
    match s.with {
        None => {
        },
        Some(c) => {
            crate::build::clause::lemma_with_cl_count(c, d, n);
            crate::utils::lemma_count_char_add(with_cl_render(c, d, n).0, " "@, '?');
        },
    }
    assert(crate::utils::count_char(a0.0, '?') == a0.1.len());
    let a1 = add_text(a0, insert_cl_render(s.table, d) + " "@);
    crate::build::clause::lemma_insert_cl_count(s.table, d);
    crate::utils::lemma_count_char_add(insert_cl_render(s.table, d), " "@, '?');
    crate::utils::lemma_count_char_add(a0.0, insert_cl_render(s.table, d) + " "@, '?');
    assert(crate::utils::count_char(a1.0, '?') == a1.1.len());
    let a2 = add_data(a1, s.data, d, n);
    lemma_data_placeholder_count(s.data, d, n + a1.1.len());
    crate::utils::lemma_count_char_add(a1.0, data_render(s.data, d, n + a1.1.len()).0, '?');
    assert(crate::utils::count_char(a2.0, '?') == a2.1.len());
    let a3 = add_returns(a2, s.returns, d, n);
    match s.returns {
        None => {
        },
        Some(c) => {
            crate::build::clause::lemma_returning_cl_count(c, d, n + a2.1.len());
            crate::utils::lemma_count_char_add(a2.0, " "@, '?');
            crate::utils::lemma_count_char_add(
                a2.0 + " "@,
                returning_cl_render(c, d, n + a2.1.len()).0,
                '?',
            );
        },
    }
    assert(crate::utils::count_char(a3.0, '?') == a3.1.len());
}

/// The placeholder-count law for a an `UPDATE` statement.
#[verifier::rlimit(100)]
pub(crate) proof fn lemma_update_stmt_count(s: Update, d: Dialect, n: nat)
    requires
        d.params == crate::build::Params::Question,
        d.quote != '?',
        update_plain(s),
    ensures
        crate::utils::count_char(update_stmt_render(s, d, n).0, '?') == update_stmt_render(s, d, n).1.len(),
    decreases s,
{
    crate::build::lemma_keyword_counts();
    crate::build::expr::lemma_sep_counts();
    let a0 = with_part(s.with, d, n);
    match s.with {
        None => {
        },
        Some(c) => {
            crate::build::clause::lemma_with_cl_count(c, d, n);
            crate::utils::lemma_count_char_add(with_cl_render(c, d, n).0, " "@, '?');
        },
    }
    assert(crate::utils::count_char(a0.0, '?') == a0.1.len());
    let a1 = add_text(a0, update_cl_render(s.table, d) + " "@);
    crate::build::clause::lemma_update_cl_count(s.table, d);
    crate::utils::lemma_count_char_add(update_cl_render(s.table, d), " "@, '?');
    crate::utils::lemma_count_char_add(a0.0, update_cl_render(s.table, d) + " "@, '?');
    assert(crate::utils::count_char(a1.0, '?') == a1.1.len());
    let a2 = add_set(a1, s.set, d, n);
    crate::build::clause::lemma_set_cl_count(s.set, d, n + a1.1.len());
    crate::utils::lemma_count_char_add(
        a1.0,
        set_cl_render(s.set, d, n + a1.1.len()).0,
        '?',
    );
    assert(crate::utils::count_char(a2.0, '?') == a2.1.len());
    let a3 = add_from(a2, s.from, d, n);
    match s.from {
        None => {
        },
        Some(c) => {
            crate::build::clause::lemma_from_cl_count(c, d, n + a2.1.len());
            crate::utils::lemma_count_char_add(a2.0, " "@, '?');
            crate::utils::lemma_count_char_add(
                a2.0 + " "@,
                from_cl_render(c, d, n + a2.1.len()).0,
                '?',
            );
        },
    }
    assert(crate::utils::count_char(a3.0, '?') == a3.1.len());
    let a4 = add_filter(a3, s.filter, d, n);
    match s.filter {
        None => {
        },
        Some(c) => {
            crate::build::clause::lemma_where_cl_count(c, d, n + a3.1.len());
            crate::utils::lemma_count_char_add(a3.0, " "@, '?');
            crate::utils::lemma_count_char_add(
                a3.0 + " "@,
                where_cl_render(c, d, n + a3.1.len()).0,
                '?',
            );
        },
    }
    assert(crate::utils::count_char(a4.0, '?') == a4.1.len());
    let a5 = add_returns(a4, s.returns, d, n);
    match s.returns {
        None => {
        },
        Some(c) => {
            crate::build::clause::lemma_returning_cl_count(c, d, n + a4.1.len());
            crate::utils::lemma_count_char_add(a4.0, " "@, '?');
            crate::utils::lemma_count_char_add(
                a4.0 + " "@,
                returning_cl_render(c, d, n + a4.1.len()).0,
                '?',
            );
        },
    }
    assert(crate::utils::count_char(a5.0, '?') == a5.1.len());
}

/// The placeholder-count law for a a `DELETE` statement.
#[verifier::rlimit(100)]
pub(crate) proof fn lemma_delete_stmt_count(s: Delete, d: Dialect, n: nat)
    requires
        d.params == crate::build::Params::Question,
        d.quote != '?',
        delete_plain(s),
    ensures
        crate::utils::count_char(delete_stmt_render(s, d, n).0, '?') == delete_stmt_render(s, d, n).1.len(),
    decreases s,
{
    crate::build::lemma_keyword_counts();
    crate::build::expr::lemma_sep_counts();
    let a0 = with_part(s.with, d, n);
    match s.with {
        None => {
        },
        Some(c) => {
            crate::build::clause::lemma_with_cl_count(c, d, n);
            crate::utils::lemma_count_char_add(with_cl_render(c, d, n).0, " "@, '?');
        },
    }
    assert(crate::utils::count_char(a0.0, '?') == a0.1.len());
    let a1 = add_text(a0, delete_cl_render(s.table, d));
    crate::build::clause::lemma_delete_cl_count(s.table, d);
    crate::utils::lemma_count_char_add(a0.0, delete_cl_render(s.table, d), '?');
    assert(crate::utils::count_char(a1.0, '?') == a1.1.len());
    let a2 = add_filter(a1, s.filter, d, n);
    match s.filter {
        None => {
        },
        Some(c) => {
            crate::build::clause::lemma_where_cl_count(c, d, n + a1.1.len());
            crate::utils::lemma_count_char_add(a1.0, " "@, '?');
            crate::utils::lemma_count_char_add(
                a1.0 + " "@,
                where_cl_render(c, d, n + a1.1.len()).0,
                '?',
            );
        },
    }
    assert(crate::utils::count_char(a2.0, '?') == a2.1.len());
    let a3 = add_returns(a2, s.returns, d, n);
    match s.returns {
        None => {
        },
        Some(c) => {
            crate::build::clause::lemma_returning_cl_count(c, d, n + a2.1.len());
            crate::utils::lemma_count_char_add(a2.0, " "@, '?');
            crate::utils::lemma_count_char_add(
                a2.0 + " "@,
                returning_cl_render(c, d, n + a2.1.len()).0,
                '?',
            );
        },
    }
    assert(crate::utils::count_char(a3.0, '?') == a3.1.len());
}

/// The placeholder-count law for a a set-operation statement.
#[verifier::rlimit(100)]
pub(crate) proof fn lemma_binary_stmt_count(s: Binary, d: Dialect, n: nat)
    requires
        d.params == crate::build::Params::Question,
        d.quote != '?',
        binary_plain(s),
    ensures
        crate::utils::count_char(binary_render(s, d, n).0, '?') == binary_render(s, d, n).1.len(),
    decreases s,
{
    crate::build::lemma_keyword_counts();
    crate::build::expr::lemma_sep_counts();
    let a0 = with_part(s.with, d, n);
    match s.with {
        None => {
        },
        Some(c) => {
            crate::build::clause::lemma_with_cl_count(c, d, n);
            crate::utils::lemma_count_char_add(with_cl_render(c, d, n).0, " "@, '?');
        },
    }
    assert(crate::utils::count_char(a0.0, '?') == a0.1.len());
    let a1 = add_result(a0, *s.left, d, n);
    lemma_result_stmt_count(*s.left, d, n + a0.1.len());
    crate::utils::lemma_count_char_add(a0.0, result_render(*s.left, d, n + a0.1.len()).0, '?');
    assert(crate::utils::count_char(a1.0, '?') == a1.1.len());
    let a2 = add_text(a1, " "@ + s.op@ + " "@);
    crate::utils::lemma_count_char_add(" "@, s.op@, '?');
    crate::utils::lemma_count_char_add(" "@ + s.op@, " "@, '?');
    crate::utils::lemma_count_char_add(a1.0, " "@ + s.op@ + " "@, '?');
    assert(crate::utils::count_char(a2.0, '?') == a2.1.len());
    let a3 = add_result(a2, *s.right, d, n);
    lemma_result_stmt_count(*s.right, d, n + a2.1.len());
    crate::utils::lemma_count_char_add(a2.0, result_render(*s.right, d, n + a2.1.len()).0, '?');
    assert(crate::utils::count_char(a3.0, '?') == a3.1.len());
}

/// The placeholder-count law for a a result-wrapper statement.
#[verifier::rlimit(100)]
pub(crate) proof fn lemma_result_stmt_count(s: crate::stmt::result::Result, d: Dialect, n: nat)
    requires
        d.params == crate::build::Params::Question,
        d.quote != '?',
        result_plain(s),
    ensures
        crate::utils::count_char(result_render(s, d, n).0, '?') == result_render(s, d, n).1.len(),
    decreases s,
{
    crate::build::lemma_keyword_counts();
    crate::build::expr::lemma_sep_counts();
    let a0 = with_part(s.with, d, n);
    match s.with {
        None => {
        },
        Some(c) => {
            crate::build::clause::lemma_with_cl_count(c, d, n);
            crate::utils::lemma_count_char_add(with_cl_render(c, d, n).0, " "@, '?');
        },
    }
    assert(crate::utils::count_char(a0.0, '?') == a0.1.len());
    let a1 = add_data(a0, s.data, d, n);
    lemma_data_placeholder_count(s.data, d, n + a0.1.len());
    crate::utils::lemma_count_char_add(a0.0, data_render(s.data, d, n + a0.1.len()).0, '?');
    assert(crate::utils::count_char(a1.0, '?') == a1.1.len());
    let a2 = add_limit(a1, s.limit, d, n);
    match s.limit {
        None => {
        },
        Some(c) => {
            crate::build::clause::lemma_limit_cl_count(c, d, n + a1.1.len());
            crate::utils::lemma_count_char_add(a1.0, " "@, '?');
            crate::utils::lemma_count_char_add(
                a1.0 + " "@,
                limit_cl_render(c, d, n + a1.1.len()).0,
                '?',
            );
        },
    }
    assert(crate::utils::count_char(a2.0, '?') == a2.1.len());
    let a3 = add_offset(a2, s.offset, d, n);
    match s.offset {
        None => {
        },
        Some(c) => {
            crate::build::clause::lemma_offset_cl_count(c, d, n + a2.1.len());
            crate::utils::lemma_count_char_add(a2.0, " "@, '?');
            crate::utils::lemma_count_char_add(
                a2.0 + " "@,
                offset_cl_render(c, d, n + a2.1.len()).0,
                '?',
            );
        },
    }
    assert(crate::utils::count_char(a3.0, '?') == a3.1.len());
}

/// The placeholder-count law for a row-producing data form.
pub(crate) proof fn lemma_data_placeholder_count(s: Data, d: Dialect, n: nat)
    requires
        d.params == crate::build::Params::Question,
        d.quote != '?',
        data_plain(s),
    ensures
        crate::utils::count_char(data_render(s, d, n).0, '?') == data_render(s, d, n).1.len(),
    decreases s,
{
    match s {
        Data::Select(inner) => {
            lemma_select_stmt_count(*inner, d, n);
        },
        Data::Values(inner) => {
            lemma_values_stmt_count(inner, d, n);
        },
        Data::Binary(inner) => {
            lemma_binary_stmt_count(inner, d, n);
        },
    }
}

/// The number of placeholders emitted for a statement equals the length
/// of its argument list: under the repeated-token dialects, every literal
/// and every `LIMIT` or `OFFSET` count becomes exactly one placeholder
/// and one argument, in the same left-to-right order, and identifiers and
/// operator tokens free of the token contribute none.
pub proof fn lemma_stmt_placeholder_count(s: Stmt, d: Dialect, n: nat)
    requires
        d.params == crate::build::Params::Question,
        d.quote != '?',
        stmt_plain(s),
    ensures
        crate::utils::count_char(stmt_render(s, d, n).0, '?') == stmt_render(s, d, n).1.len(),
    decreases s,
{
    match s {
        Stmt::Insert(inner) => {
            lemma_insert_stmt_count(inner, d, n);
        },
        Stmt::Select(inner) => {
            lemma_select_stmt_count(inner, d, n);
        },
        Stmt::Update(inner) => {
            lemma_update_stmt_count(inner, d, n);
        },
        Stmt::Delete(inner) => {
            lemma_delete_stmt_count(inner, d, n);
        },
        Stmt::Values(inner) => {
            lemma_values_stmt_count(inner, d, n);
        },
        Stmt::Binary(inner) => {
            lemma_binary_stmt_count(inner, d, n);
        },
        Stmt::Result(inner) => {
            lemma_result_stmt_count(inner, d, n);
        },
    }
}

} // verus!
