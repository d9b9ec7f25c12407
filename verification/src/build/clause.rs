//! Rendering of clauses: each writes its keyword, then its content.

use vstd::prelude::*;

use crate::build::expr::expr_render;
use crate::build::expr::exprs_render;
use crate::build::item::ctes_render;
use crate::build::item::fields_render;
use crate::build::item::idents_sql;
use crate::build::item::orders_render;
use crate::build::item::rows_render;
use crate::build::item::sets_render;
use crate::build::item::table_ref_sql;
use crate::build::item::tables_render;
use crate::build::value_sql;
use crate::build::Dialect;
use crate::clause;
use crate::value::Value;

verus! {

/// Rendering of a `SELECT` clause.
pub open spec fn select_cl_render(c: clause::Select, d: Dialect, n: nat) -> (Seq<char>, Seq<Value>)
    decreases c, 0int,
{
    let t = fields_render(c.0@, d, n);
    ("SELECT "@ + t.0, t.1)
}

/// Rendering of a `FROM` clause.
pub open spec fn from_cl_render(c: clause::From, d: Dialect, n: nat) -> (Seq<char>, Seq<Value>)
    decreases c, 0int,
{
    let t = tables_render(c.0@, d, n);
    ("FROM "@ + t.0, t.1)
}

/// Rendering of a `WHERE` clause.
pub open spec fn where_cl_render(c: clause::Where, d: Dialect, n: nat) -> (Seq<char>, Seq<Value>)
    decreases c, 0int,
{
    let t = expr_render(c.0, d, n);
    ("WHERE "@ + t.0, t.1)
}

/// Rendering of a `GROUP BY` clause.
pub open spec fn group_by_cl_render(c: clause::GroupBy, d: Dialect, n: nat) -> (
    Seq<char>,
    Seq<Value>,
)
    decreases c, 0int,
{
    let t = exprs_render(c.0@, d, n);
    ("GROUP BY "@ + t.0, t.1)
}

/// Rendering of a `HAVING` clause.
pub open spec fn having_cl_render(c: clause::Having, d: Dialect, n: nat) -> (Seq<char>, Seq<Value>)
    decreases c, 0int,
{
    let t = expr_render(c.0, d, n);
    ("HAVING "@ + t.0, t.1)
}

/// Rendering of an `ORDER BY` clause.
pub open spec fn order_by_cl_render(c: clause::OrderBy, d: Dialect, n: nat) -> (
    Seq<char>,
    Seq<Value>,
)
    decreases c, 0int,
{
    let t = orders_render(c.0@, d, n);
    ("ORDER BY "@ + t.0, t.1)
}

/// The text of an `INSERT INTO` clause: the target table, then the column
/// list in parentheses when it is not empty.
pub open spec fn insert_cl_sql(c: clause::Insert, d: Dialect) -> Seq<char> {
    table_ref_sql(c.0, d) + if c.1@.len() == 0 {
        Seq::<char>::empty()
    } else {
        "("@ + idents_sql(c.1@, d) + ")"@
    }
}

/// Rendering of an `INSERT INTO` clause.
pub open spec fn insert_cl_render(c: clause::Insert, d: Dialect) -> Seq<char> {
    "INSERT INTO "@ + insert_cl_sql(c, d)
}

/// Rendering of a `VALUES` clause.
pub open spec fn values_cl_render(c: clause::Values, d: Dialect, n: nat) -> (Seq<char>, Seq<Value>)
    decreases c, 0int,
{
    let t = rows_render(c.0@, d, n);
    ("VALUES "@ + t.0, t.1)
}

/// Rendering of a `RETURNING` clause.
pub open spec fn returning_cl_render(c: clause::Returning, d: Dialect, n: nat) -> (
    Seq<char>,
    Seq<Value>,
)
    decreases c, 0int,
{
    let t = fields_render(c.0@, d, n);
    ("RETURNING "@ + t.0, t.1)
}

/// Rendering of a `DELETE FROM` clause.
pub open spec fn delete_cl_render(c: clause::Delete, d: Dialect) -> Seq<char> {
    "DELETE FROM "@ + table_ref_sql(c.0, d)
}

/// Rendering of an `UPDATE` clause.
pub open spec fn update_cl_render(c: clause::Update, d: Dialect) -> Seq<char> {
    "UPDATE "@ + table_ref_sql(c.0, d)
}

/// Rendering of a `SET` clause.
pub open spec fn set_cl_render(c: clause::SetClause, d: Dialect, n: nat) -> (Seq<char>, Seq<Value>)
    decreases c, 0int,
{
    let t = sets_render(c.0@, d, n);
    ("SET "@ + t.0, t.1)
}

/// Rendering of a `WITH` clause.
pub open spec fn with_cl_render(c: clause::With, d: Dialect, n: nat) -> (Seq<char>, Seq<Value>)
    decreases c, 0int,
{
    let t = ctes_render(c.1@, d, n);
    ((if c.0 {
        "WITH RECURSIVE "@
    } else {
        "WITH "@
    }) + t.0, t.1)
}

/// Rendering of a `LIMIT` clause: the count is emitted as a value, so in
/// parameterized mode it becomes a placeholder and a bound argument.
pub open spec fn limit_cl_render(c: clause::Limit, d: Dialect, n: nat) -> (Seq<char>, Seq<Value>) {
    (
        "LIMIT "@ + value_sql(Value::BigInt(c.0 as i64), d, n + 1),
        seq![Value::BigInt(c.0 as i64)],
    )
}

/// Rendering of an `OFFSET` clause, like `LIMIT` emitted as a value.
pub open spec fn offset_cl_render(c: clause::Offset, d: Dialect, n: nat) -> (
    Seq<char>,
    Seq<Value>,
) {
    (
        "OFFSET "@ + value_sql(Value::BigInt(c.0 as i64), d, n + 1),
        seq![Value::BigInt(c.0 as i64)],
    )
}

impl clause::Select {
    /// Append this clause: the keyword, then the field list.
    pub(crate) fn build(self, d: &Dialect, sql: &mut String, args: &mut Vec<Value>)
        ensures
            final(sql)@ == old(sql)@ + select_cl_render(self, *d, old(args)@.len()).0,
            final(args)@ == old(args)@ + select_cl_render(self, *d, old(args)@.len()).1,
        decreases self,
    {
        let ghost n0 = old(args)@.len();
        sql.append("SELECT ");
        crate::build::item::build_fields(self.0, d, sql, args);
        proof {
            assert(sql@ =~= old(sql)@ + select_cl_render(self, *d, n0).0);
        }
    }
}

impl clause::From {
    /// Append this clause: the keyword, then the table list.
    pub(crate) fn build(self, d: &Dialect, sql: &mut String, args: &mut Vec<Value>)
        ensures
            final(sql)@ == old(sql)@ + from_cl_render(self, *d, old(args)@.len()).0,
            final(args)@ == old(args)@ + from_cl_render(self, *d, old(args)@.len()).1,
        decreases self,
    {
        let ghost n0 = old(args)@.len();
        sql.append("FROM ");
        crate::build::item::build_tables(self.0, d, sql, args);
        proof {
            assert(sql@ =~= old(sql)@ + from_cl_render(self, *d, n0).0);
        }
    }
}

impl clause::Where {
    /// Append this clause: the keyword, then the condition.
    pub(crate) fn build(self, d: &Dialect, sql: &mut String, args: &mut Vec<Value>)
        ensures
            final(sql)@ == old(sql)@ + where_cl_render(self, *d, old(args)@.len()).0,
            final(args)@ == old(args)@ + where_cl_render(self, *d, old(args)@.len()).1,
        decreases self,
    {
        let ghost n0 = old(args)@.len();
        sql.append("WHERE ");
        self.0.build(d, sql, args);
        proof {
            assert(sql@ =~= old(sql)@ + where_cl_render(self, *d, n0).0);
        }
    }
}

impl clause::GroupBy {
    /// Append this clause: the keyword, then the grouping expressions.
    pub(crate) fn build(self, d: &Dialect, sql: &mut String, args: &mut Vec<Value>)
        ensures
            final(sql)@ == old(sql)@ + group_by_cl_render(self, *d, old(args)@.len()).0,
            final(args)@ == old(args)@ + group_by_cl_render(self, *d, old(args)@.len()).1,
        decreases self,
    {
        let ghost n0 = old(args)@.len();
        sql.append("GROUP BY ");
        crate::build::expr::build_exprs(self.0, d, sql, args);
        proof {
            assert(sql@ =~= old(sql)@ + group_by_cl_render(self, *d, n0).0);
        }
    }
}

impl clause::Having {
    /// Append this clause: the keyword, then the condition.
    pub(crate) fn build(self, d: &Dialect, sql: &mut String, args: &mut Vec<Value>)
        ensures
            final(sql)@ == old(sql)@ + having_cl_render(self, *d, old(args)@.len()).0,
            final(args)@ == old(args)@ + having_cl_render(self, *d, old(args)@.len()).1,
        decreases self,
    {
        let ghost n0 = old(args)@.len();
        sql.append("HAVING ");
        self.0.build(d, sql, args);
        proof {
            assert(sql@ =~= old(sql)@ + having_cl_render(self, *d, n0).0);
        }
    }
}

impl clause::OrderBy {
    /// Append this clause: the keyword, then the sort entries.
    pub(crate) fn build(self, d: &Dialect, sql: &mut String, args: &mut Vec<Value>)
        ensures
            final(sql)@ == old(sql)@ + order_by_cl_render(self, *d, old(args)@.len()).0,
            final(args)@ == old(args)@ + order_by_cl_render(self, *d, old(args)@.len()).1,
        decreases self,
    {
        let ghost n0 = old(args)@.len();
        sql.append("ORDER BY ");
        crate::build::item::build_orders(self.0, d, sql, args);
        proof {
            assert(sql@ =~= old(sql)@ + order_by_cl_render(self, *d, n0).0);
        }
    }
}

impl clause::Insert {
    /// Append this clause: the keyword, the target table, and the column
    /// list when it is not empty.
    pub(crate) fn build(self, d: &Dialect, sql: &mut String)
        ensures
            final(sql)@ == old(sql)@ + insert_cl_render(self, *d),
        decreases self,
    {
        sql.append("INSERT INTO ");
        let clause::Insert(table, columns) = self;
        table.build(d, sql);
        if columns.len() > 0 {
            sql.append("(");
            crate::build::item::build_idents(columns, d, sql);
            sql.append(")");
        }
        proof {
            assert(sql@ =~= old(sql)@ + insert_cl_render(self, *d));
        }
    }
}

impl clause::Values {
    /// Append this clause: the keyword, then the rows.
    pub(crate) fn build(self, d: &Dialect, sql: &mut String, args: &mut Vec<Value>)
        ensures
            final(sql)@ == old(sql)@ + values_cl_render(self, *d, old(args)@.len()).0,
            final(args)@ == old(args)@ + values_cl_render(self, *d, old(args)@.len()).1,
        decreases self,
    {
        let ghost n0 = old(args)@.len();
        sql.append("VALUES ");
        crate::build::item::build_rows(self.0, d, sql, args);
        proof {
            assert(sql@ =~= old(sql)@ + values_cl_render(self, *d, n0).0);
        }
    }
}

impl clause::Returning {
    /// Append this clause: the keyword, then the field list.
    pub(crate) fn build(self, d: &Dialect, sql: &mut String, args: &mut Vec<Value>)
        ensures
            final(sql)@ == old(sql)@ + returning_cl_render(self, *d, old(args)@.len()).0,
            final(args)@ == old(args)@ + returning_cl_render(self, *d, old(args)@.len()).1,
        decreases self,
    {
        let ghost n0 = old(args)@.len();
        sql.append("RETURNING ");
        crate::build::item::build_fields(self.0, d, sql, args);
        proof {
            assert(sql@ =~= old(sql)@ + returning_cl_render(self, *d, n0).0);
        }
    }
}

impl clause::Delete {
    /// Append this clause: the keyword, then the target table.
    pub(crate) fn build(self, d: &Dialect, sql: &mut String)
        ensures
            final(sql)@ == old(sql)@ + delete_cl_render(self, *d),
        decreases self,
    {
        sql.append("DELETE FROM ");
        self.0.build(d, sql);
        proof {
            assert(sql@ =~= old(sql)@ + delete_cl_render(self, *d));
        }
    }
}

impl clause::Update {
    /// Append this clause: the keyword, then the target table.
    pub(crate) fn build(self, d: &Dialect, sql: &mut String)
        ensures
            final(sql)@ == old(sql)@ + update_cl_render(self, *d),
        decreases self,
    {
        sql.append("UPDATE ");
        self.0.build(d, sql);
        proof {
            assert(sql@ =~= old(sql)@ + update_cl_render(self, *d));
        }
    }
}

impl clause::SetClause {
    /// Append this clause: the keyword, then the assignments.
    pub(crate) fn build(self, d: &Dialect, sql: &mut String, args: &mut Vec<Value>)
        ensures
            final(sql)@ == old(sql)@ + set_cl_render(self, *d, old(args)@.len()).0,
            final(args)@ == old(args)@ + set_cl_render(self, *d, old(args)@.len()).1,
        decreases self,
    {
        let ghost n0 = old(args)@.len();
        sql.append("SET ");
        crate::build::item::build_sets(self.0, d, sql, args);
        proof {
            assert(sql@ =~= old(sql)@ + set_cl_render(self, *d, n0).0);
        }
    }
}

impl clause::With {
    /// Append this clause: the keyword, the recursive mark, then the CTE
    /// entries.
    pub(crate) fn build(self, d: &Dialect, sql: &mut String, args: &mut Vec<Value>)
        ensures
            final(sql)@ == old(sql)@ + with_cl_render(self, *d, old(args)@.len()).0,
            final(args)@ == old(args)@ + with_cl_render(self, *d, old(args)@.len()).1,
        decreases self,
    {
        let ghost n0 = old(args)@.len();
        let clause::With(recursive, ctes) = self;
        if recursive {
            sql.append("WITH RECURSIVE ");
        } else {
            sql.append("WITH ");
        }
        crate::build::item::build_ctes(ctes, d, sql, args);
        proof {
            assert(sql@ =~= old(sql)@ + with_cl_render(self, *d, n0).0);
        }
    }
}

impl clause::Limit {
    /// Append this clause: the keyword, then the count emitted as a value.
    pub(crate) fn build(self, d: &Dialect, sql: &mut String, args: &mut Vec<Value>)
        ensures
            final(sql)@ == old(sql)@ + limit_cl_render(self, *d, old(args)@.len()).0,
            final(args)@ == old(args)@ + limit_cl_render(self, *d, old(args)@.len()).1,
    {
        let ghost n0 = old(args)@.len();
        sql.append("LIMIT ");
        crate::build::build_value(Value::BigInt(self.0 as i64), d, sql, args);
        proof {
            assert(sql@ =~= old(sql)@ + limit_cl_render(self, *d, n0).0);
            assert(args@ =~= old(args)@ + limit_cl_render(self, *d, n0).1);
        }
    }
}

impl clause::Offset {
    /// Append this clause: the keyword, then the count emitted as a value.
    pub(crate) fn build(self, d: &Dialect, sql: &mut String, args: &mut Vec<Value>)
        ensures
            final(sql)@ == old(sql)@ + offset_cl_render(self, *d, old(args)@.len()).0,
            final(args)@ == old(args)@ + offset_cl_render(self, *d, old(args)@.len()).1,
    {
        let ghost n0 = old(args)@.len();
        sql.append("OFFSET ");
        crate::build::build_value(Value::BigInt(self.0 as i64), d, sql, args);
        proof {
            assert(sql@ =~= old(sql)@ + offset_cl_render(self, *d, n0).0);
            assert(args@ =~= old(args)@ + offset_cl_render(self, *d, n0).1);
        }
    }
}

impl clause::Select {
    /// The human-readable inline rendering.
    pub fn sql_string(self) -> (r: String)
        ensures
            r@ == select_cl_render(self, Dialect::display_spec(), 0).0,
    {
        let mut sql = String::new();
        let mut args: Vec<Value> = Vec::new();
        self.build(&Dialect::display(), &mut sql, &mut args);
        proof {
            assert(sql@ =~= select_cl_render(self, Dialect::display_spec(), 0).0);
        }
        sql
    }
}

impl clause::From {
    /// The human-readable inline rendering.
    pub fn sql_string(self) -> (r: String)
        ensures
            r@ == from_cl_render(self, Dialect::display_spec(), 0).0,
    {
        let mut sql = String::new();
        let mut args: Vec<Value> = Vec::new();
        self.build(&Dialect::display(), &mut sql, &mut args);
        proof {
            assert(sql@ =~= from_cl_render(self, Dialect::display_spec(), 0).0);
        }
        sql
    }
}

impl clause::Where {
    /// The human-readable inline rendering.
    pub fn sql_string(self) -> (r: String)
        ensures
            r@ == where_cl_render(self, Dialect::display_spec(), 0).0,
    {
        let mut sql = String::new();
        let mut args: Vec<Value> = Vec::new();
        self.build(&Dialect::display(), &mut sql, &mut args);
        proof {
            assert(sql@ =~= where_cl_render(self, Dialect::display_spec(), 0).0);
        }
        sql
    }
}

impl clause::GroupBy {
    /// The human-readable inline rendering.
    pub fn sql_string(self) -> (r: String)
        ensures
            r@ == group_by_cl_render(self, Dialect::display_spec(), 0).0,
    {
        let mut sql = String::new();
        let mut args: Vec<Value> = Vec::new();
        self.build(&Dialect::display(), &mut sql, &mut args);
        proof {
            assert(sql@ =~= group_by_cl_render(self, Dialect::display_spec(), 0).0);
        }
        sql
    }
}

impl clause::Having {
    /// The human-readable inline rendering.
    pub fn sql_string(self) -> (r: String)
        ensures
            r@ == having_cl_render(self, Dialect::display_spec(), 0).0,
    {
        let mut sql = String::new();
        let mut args: Vec<Value> = Vec::new();
        self.build(&Dialect::display(), &mut sql, &mut args);
        proof {
            assert(sql@ =~= having_cl_render(self, Dialect::display_spec(), 0).0);
        }
        sql
    }
}

impl clause::OrderBy {
    /// The human-readable inline rendering.
    pub fn sql_string(self) -> (r: String)
        ensures
            r@ == order_by_cl_render(self, Dialect::display_spec(), 0).0,
    {
        let mut sql = String::new();
        let mut args: Vec<Value> = Vec::new();
        self.build(&Dialect::display(), &mut sql, &mut args);
        proof {
            assert(sql@ =~= order_by_cl_render(self, Dialect::display_spec(), 0).0);
        }
        sql
    }
}

/// The placeholder-count law for a `SELECT` clause.
pub(crate) proof fn lemma_select_cl_count(c: clause::Select, d: Dialect, n: nat)
    requires
        d.params == crate::build::Params::Question,
        d.quote != '?',
        crate::build::item::fields_plain(c.0@),
    ensures
        crate::utils::count_char(select_cl_render(c, d, n).0, '?') == select_cl_render(c, d, n).1.len(),
    decreases c,
{
    crate::build::lemma_keyword_counts();
    crate::build::item::lemma_fields_placeholder_count(c.0@, d, n);
    let t = fields_render(c.0@, d, n);
    crate::utils::lemma_count_char_add("SELECT "@, t.0, '?');
}

/// The placeholder-count law for a `FROM` clause.
pub(crate) proof fn lemma_from_cl_count(c: clause::From, d: Dialect, n: nat)
    requires
        d.params == crate::build::Params::Question,
        d.quote != '?',
        crate::build::item::tables_plain(c.0@),
    ensures
        crate::utils::count_char(from_cl_render(c, d, n).0, '?') == from_cl_render(c, d, n).1.len(),
    decreases c,
{
    crate::build::lemma_keyword_counts();
    crate::build::item::lemma_tables_placeholder_count(c.0@, d, n);
    let t = tables_render(c.0@, d, n);
    crate::utils::lemma_count_char_add("FROM "@, t.0, '?');
}

/// The placeholder-count law for a `WHERE` clause.
pub(crate) proof fn lemma_where_cl_count(c: clause::Where, d: Dialect, n: nat)
    requires
        d.params == crate::build::Params::Question,
        d.quote != '?',
        crate::build::expr::expr_plain(c.0),
    ensures
        crate::utils::count_char(where_cl_render(c, d, n).0, '?') == where_cl_render(c, d, n).1.len(),
    decreases c,
{
    crate::build::lemma_keyword_counts();
    crate::build::expr::lemma_expr_placeholder_count(c.0, d, n);
    let t = expr_render(c.0, d, n);
    crate::utils::lemma_count_char_add("WHERE "@, t.0, '?');
}

/// The placeholder-count law for a `GROUP BY` clause.
pub(crate) proof fn lemma_group_by_cl_count(c: clause::GroupBy, d: Dialect, n: nat)
    requires
        d.params == crate::build::Params::Question,
        d.quote != '?',
        crate::build::expr::exprs_plain(c.0@),
    ensures
        crate::utils::count_char(group_by_cl_render(c, d, n).0, '?') == group_by_cl_render(
            c,
            d,
            n,
        ).1.len(),
    decreases c,
{
    crate::build::lemma_keyword_counts();
    crate::build::expr::lemma_exprs_placeholder_count(c.0@, d, n);
    let t = exprs_render(c.0@, d, n);
    crate::utils::lemma_count_char_add("GROUP BY "@, t.0, '?');
}

/// The placeholder-count law for a `HAVING` clause.
pub(crate) proof fn lemma_having_cl_count(c: clause::Having, d: Dialect, n: nat)
    requires
        d.params == crate::build::Params::Question,
        d.quote != '?',
        crate::build::expr::expr_plain(c.0),
    ensures
        crate::utils::count_char(having_cl_render(c, d, n).0, '?') == having_cl_render(c, d, n).1.len(),
    decreases c,
{
    crate::build::lemma_keyword_counts();
    crate::build::expr::lemma_expr_placeholder_count(c.0, d, n);
    let t = expr_render(c.0, d, n);
    crate::utils::lemma_count_char_add("HAVING "@, t.0, '?');
}

/// The placeholder-count law for a an `ORDER BY` clause.
pub(crate) proof fn lemma_order_by_cl_count(c: clause::OrderBy, d: Dialect, n: nat)
    requires
        d.params == crate::build::Params::Question,
        d.quote != '?',
        crate::build::item::orders_plain(c.0@),
    ensures
        crate::utils::count_char(order_by_cl_render(c, d, n).0, '?') == order_by_cl_render(c, d, n).1.len(),
    decreases c,
{
    crate::build::lemma_keyword_counts();
    crate::build::item::lemma_orders_placeholder_count(c.0@, d, n);
    let t = orders_render(c.0@, d, n);
    crate::utils::lemma_count_char_add("ORDER BY "@, t.0, '?');
}

/// The placeholder-count law for a `VALUES` clause.
pub(crate) proof fn lemma_values_cl_count(c: clause::Values, d: Dialect, n: nat)
    requires
        d.params == crate::build::Params::Question,
        d.quote != '?',
        crate::build::item::rows_plain(c.0@),
    ensures
        crate::utils::count_char(values_cl_render(c, d, n).0, '?') == values_cl_render(c, d, n).1.len(),
    decreases c,
{
    crate::build::lemma_keyword_counts();
    crate::build::item::lemma_rows_placeholder_count(c.0@, d, n);
    let t = rows_render(c.0@, d, n);
    crate::utils::lemma_count_char_add("VALUES "@, t.0, '?');
}

/// The placeholder-count law for a `RETURNING` clause.
pub(crate) proof fn lemma_returning_cl_count(c: clause::Returning, d: Dialect, n: nat)
    requires
        d.params == crate::build::Params::Question,
        d.quote != '?',
        crate::build::item::fields_plain(c.0@),
    ensures
        crate::utils::count_char(returning_cl_render(c, d, n).0, '?') == returning_cl_render(c, d, n).1.len(),
    decreases c,
{
    crate::build::lemma_keyword_counts();
    crate::build::item::lemma_fields_placeholder_count(c.0@, d, n);
    let t = fields_render(c.0@, d, n);
    crate::utils::lemma_count_char_add("RETURNING "@, t.0, '?');
}

/// The placeholder-count law for a `SET` clause.
pub(crate) proof fn lemma_set_cl_count(c: clause::SetClause, d: Dialect, n: nat)
    requires
        d.params == crate::build::Params::Question,
        d.quote != '?',
        crate::build::item::sets_plain(c.0@),
    ensures
        crate::utils::count_char(set_cl_render(c, d, n).0, '?') == set_cl_render(c, d, n).1.len(),
    decreases c,
{
    crate::build::lemma_keyword_counts();
    crate::build::item::lemma_sets_placeholder_count(c.0@, d, n);
    let t = sets_render(c.0@, d, n);
    crate::utils::lemma_count_char_add("SET "@, t.0, '?');
}

/// The text of an `INSERT INTO` clause holds no placeholder token.
pub(crate) proof fn lemma_insert_cl_count(c: clause::Insert, d: Dialect)
    requires
        d.quote != '?',
        crate::build::expr::table_ref_plain(c.0),
        crate::build::item::idents_plain(c.1@),
    ensures
        crate::utils::count_char(insert_cl_render(c, d), '?') == 0,
    decreases c,
{
    crate::build::lemma_keyword_counts();
    crate::build::expr::lemma_sep_counts();
    crate::build::expr::lemma_table_ref_plain(c.0, d);
    crate::build::item::lemma_idents_sql_count(c.1@, d);
    if c.1@.len() > 0 {
        crate::utils::lemma_count_char_add("("@, crate::build::item::idents_sql(c.1@, d), '?');
        crate::utils::lemma_count_char_add(
            "("@ + crate::build::item::idents_sql(c.1@, d),
            ")"@,
            '?',
        );
        crate::utils::lemma_count_char_add(
            table_ref_sql(c.0, d),
            "("@ + crate::build::item::idents_sql(c.1@, d) + ")"@,
            '?',
        );
    }
    crate::utils::lemma_count_char_add("INSERT INTO "@, insert_cl_sql(c, d), '?');
}

/// The text of a `DELETE FROM` clause holds no placeholder token.
pub(crate) proof fn lemma_delete_cl_count(c: clause::Delete, d: Dialect)
    requires
        d.quote != '?',
        crate::build::expr::table_ref_plain(c.0),
    ensures
        crate::utils::count_char(delete_cl_render(c, d), '?') == 0,
    decreases c,
{
    crate::build::lemma_keyword_counts();
    crate::build::expr::lemma_table_ref_plain(c.0, d);
    crate::utils::lemma_count_char_add("DELETE FROM "@, table_ref_sql(c.0, d), '?');
}

/// The text of an `UPDATE` clause holds no placeholder token.
pub(crate) proof fn lemma_update_cl_count(c: clause::Update, d: Dialect)
    requires
        d.quote != '?',
        crate::build::expr::table_ref_plain(c.0),
    ensures
        crate::utils::count_char(update_cl_render(c, d), '?') == 0,
    decreases c,
{
    crate::build::lemma_keyword_counts();
    crate::build::expr::lemma_table_ref_plain(c.0, d);
    crate::utils::lemma_count_char_add("UPDATE "@, table_ref_sql(c.0, d), '?');
}

/// The placeholder-count law for a `WITH` clause.
pub(crate) proof fn lemma_with_cl_count(c: clause::With, d: Dialect, n: nat)
    requires
        d.params == crate::build::Params::Question,
        d.quote != '?',
        crate::build::item::ctes_plain(c.1@),
    ensures
        crate::utils::count_char(with_cl_render(c, d, n).0, '?') == with_cl_render(
            c,
            d,
            n,
        ).1.len(),
    decreases c,
{
    crate::build::lemma_keyword_counts();
    crate::build::item::lemma_ctes_placeholder_count(c.1@, d, n);
    let t = ctes_render(c.1@, d, n);
    if c.0 {
        crate::utils::lemma_count_char_add("WITH RECURSIVE "@, t.0, '?');
    } else {
        crate::utils::lemma_count_char_add("WITH "@, t.0, '?');
    }
}

/// The placeholder-count law for a `LIMIT` clause: the count value itself
/// becomes one placeholder and one argument.
pub(crate) proof fn lemma_limit_cl_count(c: clause::Limit, d: Dialect, n: nat)
    requires
        d.params == crate::build::Params::Question,
    ensures
        crate::utils::count_char(limit_cl_render(c, d, n).0, '?') == limit_cl_render(
            c,
            d,
            n,
        ).1.len(),
{
    crate::build::lemma_keyword_counts();
    crate::build::expr::lemma_sep_counts();
    crate::utils::lemma_count_char_add("LIMIT "@, "?"@, '?');
}

/// The placeholder-count law for an `OFFSET` clause.
pub(crate) proof fn lemma_offset_cl_count(c: clause::Offset, d: Dialect, n: nat)
    requires
        d.params == crate::build::Params::Question,
    ensures
        crate::utils::count_char(offset_cl_render(c, d, n).0, '?') == offset_cl_render(
            c,
            d,
            n,
        ).1.len(),
{
    crate::build::lemma_keyword_counts();
    crate::build::expr::lemma_sep_counts();
    crate::utils::lemma_count_char_add("OFFSET "@, "?"@, '?');
}

} // verus!
