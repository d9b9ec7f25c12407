//! Rendering of identifiers, references and composite items.

use vstd::prelude::*;

use crate::build::expr::expr_render;
use crate::expr::Expr;
use crate::build::expr::exprs_render;
use crate::build::stmt::stmt_render;
use crate::build::Dialect;
use crate::item::ColumnRef;
use crate::item::Cte;
use crate::item::Field;
use crate::item::FuncCall;
use crate::item::FuncRef;
use crate::item::Ident;
use crate::item::Order;
use crate::item::Row;
use crate::item::Sort;
use crate::item::Table;
use crate::item::TableRef;
use crate::value::Value;

verus! {

impl Ident {
    /// Append this identifier, quoted under the dialect's rules.
    pub(crate) fn build(&self, d: &Dialect, sql: &mut String)
        ensures
            final(sql)@ == old(sql)@ + d.ident_sql(self.0@),
    {
        d.quote_ident(self.0.as_str(), sql);
    }
}

impl ColumnRef {
    /// Append this column reference, its parts joined with dots.
    pub(crate) fn build(&self, d: &Dialect, sql: &mut String)
        ensures
            final(sql)@ == old(sql)@ + column_ref_sql(*self, *d),
    {
        match self {
            ColumnRef::Column(i) => i.build(d, sql),
            ColumnRef::TableColumn(t, i) => {
                t.build(d, sql);
                sql.append(".");
                i.build(d, sql);
            },
            ColumnRef::SchemaTableColumn(s, t, i) => {
                s.build(d, sql);
                sql.append(".");
                t.build(d, sql);
                sql.append(".");
                i.build(d, sql);
            },
        }
        proof {
            assert(sql@ =~= old(sql)@ + column_ref_sql(*self, *d));
        }
    }
}

impl TableRef {
    /// Append this table reference, its parts joined with dots.
    pub(crate) fn build(&self, d: &Dialect, sql: &mut String)
        ensures
            final(sql)@ == old(sql)@ + table_ref_sql(*self, *d),
    {
        match self {
            TableRef::Table(i) => i.build(d, sql),
            TableRef::SchemaTable(s, i) => {
                s.build(d, sql);
                sql.append(".");
                i.build(d, sql);
            },
        }
        proof {
            assert(sql@ =~= old(sql)@ + table_ref_sql(*self, *d));
        }
    }
}

impl FuncRef {
    /// Append this function reference, its parts joined with dots.
    pub(crate) fn build(&self, d: &Dialect, sql: &mut String)
        ensures
            final(sql)@ == old(sql)@ + func_ref_sql(*self, *d),
    {
        match self {
            FuncRef::Func(i) => i.build(d, sql),
            FuncRef::SchemaFunc(s, i) => {
                s.build(d, sql);
                sql.append(".");
                i.build(d, sql);
            },
        }
        proof {
            assert(sql@ =~= old(sql)@ + func_ref_sql(*self, *d));
        }
    }
}

impl Sort {
    /// Append this sort direction's keyword.
    pub(crate) fn build(&self, sql: &mut String)
        ensures
            final(sql)@ == old(sql)@ + sort_sql(*self),
    {
        match self {
            Sort::Asc => sql.append("ASC"),
            Sort::Desc => sql.append("DESC"),
        }
    }
}

/// Append a comma-separated identifier list.
#[verifier::loop_isolation(false)]
pub(crate) fn build_idents(v: Vec<Ident>, d: &Dialect, sql: &mut String)
    ensures
        final(sql)@ == old(sql)@ + idents_sql(v@, *d),
{
    let ghost v0 = v@;
    let mut v = v;
    if v.len() == 0 {
        proof {
            assert(old(sql)@ + idents_sql(v0, *d) =~= sql@);
        }
        return ;
    }
    let head = v.remove(0);
    head.build(d, sql);
    proof {
        assert(v0[0] == head);
        assert(v0.drop_first() =~= v@);
        if v@.len() == 0 {
            assert(sql@ =~= old(sql)@ + idents_sql(v0, *d));
        } else {
            assert(old(sql)@ + idents_sql(v0, *d) =~= sql@ + ", "@ + idents_sql(v@, *d));
        }
    }
    while v.len() > 0
        invariant
            if v@.len() == 0 {
                sql@ =~= old(sql)@ + idents_sql(v0, *d)
            } else {
                old(sql)@ + idents_sql(v0, *d) =~= sql@ + ", "@ + idents_sql(v@, *d)
            },
        decreases v.len(),
    {
        let ghost pre = v@;
        sql.append(", ");
        let i = v.remove(0);
        i.build(d, sql);
        proof {
            assert(pre[0] == i);
            assert(pre.drop_first() =~= v@);
            if v@.len() == 0 {
                assert(sql@ =~= old(sql)@ + idents_sql(v0, *d));
            } else {
                assert(old(sql)@ + idents_sql(v0, *d) =~= sql@ + ", "@ + idents_sql(v@, *d));
            }
        }
    }
    proof {
        assert(sql@ =~= old(sql)@ + idents_sql(v0, *d));
    }
}

/// The text of a column reference: its parts, dialect-quoted, joined with
/// dots.
pub open spec fn column_ref_sql(c: ColumnRef, d: Dialect) -> Seq<char> {
    match c {
        ColumnRef::Column(i) => d.ident_sql(i.0@),
        ColumnRef::TableColumn(t, i) => d.ident_sql(t.0@) + "."@ + d.ident_sql(i.0@),
        ColumnRef::SchemaTableColumn(s, t, i) => d.ident_sql(s.0@) + "."@ + d.ident_sql(t.0@)
            + "."@ + d.ident_sql(i.0@),
    }
}

/// The text of a table reference.
pub open spec fn table_ref_sql(t: TableRef, d: Dialect) -> Seq<char> {
    match t {
        TableRef::Table(i) => d.ident_sql(i.0@),
        TableRef::SchemaTable(s, i) => d.ident_sql(s.0@) + "."@ + d.ident_sql(i.0@),
    }
}

/// The text of a function reference.
pub open spec fn func_ref_sql(f: FuncRef, d: Dialect) -> Seq<char> {
    match f {
        FuncRef::Func(i) => d.ident_sql(i.0@),
        FuncRef::SchemaFunc(s, i) => d.ident_sql(s.0@) + "."@ + d.ident_sql(i.0@),
    }
}

/// The keyword of a sort direction.
pub open spec fn sort_sql(s: Sort) -> Seq<char> {
    match s {
        Sort::Asc => "ASC"@,
        Sort::Desc => "DESC"@,
    }
}

/// The text of a comma-separated identifier list.
pub open spec fn idents_sql(s: Seq<Ident>, d: Dialect) -> Seq<char>
    decreases s.len(),
{
    if s.len() == 0 {
        Seq::empty()
    } else if s.len() == 1 {
        d.ident_sql(s[0].0@)
    } else {
        d.ident_sql(s[0].0@) + ", "@ + idents_sql(s.drop_first(), d)
    }
}

/// Rendering of one `ORDER BY` entry, with `n` values already emitted.
pub open spec fn order_render(o: Order, d: Dialect, n: nat) -> (Seq<char>, Seq<Value>)
    decreases o,
{
    let r = expr_render(o.0, d, n);
    match o.1 {
        None => r,
        Some(s) => (r.0 + " "@ + sort_sql(s), r.1),
    }
}

/// Rendering of a comma-separated `ORDER BY` entry list.
#[verifier::opaque]
pub open spec fn orders_render(s: Seq<Order>, d: Dialect, n: nat) -> (Seq<char>, Seq<Value>)
    decreases s,
{
    if s.len() == 0 {
        (Seq::empty(), Seq::empty())
    } else {
        let h = order_render(s[0], d, n);
        if s.len() == 1 {
            h
        } else {
            let t = orders_render(s.drop_first(), d, n + h.1.len());
            (h.0 + ", "@ + t.0, h.1 + t.1)
        }
    }
}

/// Rendering of one field, its alias appended with ` AS `.
pub open spec fn field_render(f: Field, d: Dialect, n: nat) -> (Seq<char>, Seq<Value>)
    decreases f,
{
    let r = expr_render(f.expr, d, n);
    match f.alias {
        None => r,
        Some(a) => (r.0 + " AS "@ + d.ident_sql(a.0@), r.1),
    }
}

/// Rendering of a comma-separated field list.
#[verifier::opaque]
pub open spec fn fields_render(s: Seq<Field>, d: Dialect, n: nat) -> (Seq<char>, Seq<Value>)
    decreases s,
{
    if s.len() == 0 {
        (Seq::empty(), Seq::empty())
    } else {
        let h = field_render(s[0], d, n);
        if s.len() == 1 {
            h
        } else {
            let t = fields_render(s.drop_first(), d, n + h.1.len());
            (h.0 + ", "@ + t.0, h.1 + t.1)
        }
    }
}

/// Rendering of one `FROM` entry, its alias appended with ` AS `.
pub open spec fn table_render(t: Table, d: Dialect, n: nat) -> (Seq<char>, Seq<Value>)
    decreases t,
{
    let r = crate::build::table_expr::table_expr_render(t.table, d, n);
    match t.alias {
        None => r,
        Some(a) => (r.0 + " AS "@ + d.ident_sql(a.0@), r.1),
    }
}

/// Rendering of a comma-separated `FROM` entry list.
#[verifier::opaque]
pub open spec fn tables_render(s: Seq<Table>, d: Dialect, n: nat) -> (Seq<char>, Seq<Value>)
    decreases s,
{
    if s.len() == 0 {
        (Seq::empty(), Seq::empty())
    } else {
        let h = table_render(s[0], d, n);
        if s.len() == 1 {
            h
        } else {
            let t = tables_render(s.drop_first(), d, n + h.1.len());
            (h.0 + ", "@ + t.0, h.1 + t.1)
        }
    }
}

/// Rendering of a function call: the reference, then the parenthesised
/// argument list.
pub open spec fn func_call_render(f: FuncCall, d: Dialect, n: nat) -> (Seq<char>, Seq<Value>)
    decreases f,
{
    let t = exprs_render(f.1@, d, n);
    (func_ref_sql(f.0, d) + "("@ + t.0 + ")"@, t.1)
}

/// The shape of a function call's rendering, stated for callers in other
/// proof contexts.
pub proof fn lemma_func_call_render_shape(f: FuncCall, d: Dialect, n: nat)
    ensures
        func_call_render(f, d, n) == (
            func_ref_sql(f.0, d) + "("@ + exprs_render(f.1@, d, n).0 + ")"@,
            exprs_render(f.1@, d, n).1,
        ),
{
}

/// Rendering of one `VALUES` tuple: its expressions in parentheses.
pub open spec fn row_render(r: Row, d: Dialect, n: nat) -> (Seq<char>, Seq<Value>)
    decreases r,
{
    let t = exprs_render(r.0@, d, n);
    ("("@ + t.0 + ")"@, t.1)
}

/// Rendering of a comma-separated row list.
#[verifier::opaque]
pub open spec fn rows_render(s: Seq<Row>, d: Dialect, n: nat) -> (Seq<char>, Seq<Value>)
    decreases s,
{
    if s.len() == 0 {
        (Seq::empty(), Seq::empty())
    } else {
        let h = row_render(s[0], d, n);
        if s.len() == 1 {
            h
        } else {
            let t = rows_render(s.drop_first(), d, n + h.1.len());
            (h.0 + ", "@ + t.0, h.1 + t.1)
        }
    }
}

/// Rendering of one `WITH` entry: the name, optional column labels, and
/// the parenthesised statement.
pub open spec fn cte_render(c: Cte, d: Dialect, n: nat) -> (Seq<char>, Seq<Value>)
    decreases c,
{
    let head = d.ident_sql(c.name.0@) + if c.columns@.len() == 0 {
        Seq::<char>::empty()
    } else {
        "("@ + idents_sql(c.columns@, d) + ")"@
    };
    let t = stmt_render(c.stmt, d, n);
    (head + " AS ("@ + t.0 + ")"@, t.1)
}

/// Rendering of a comma-separated `WITH` entry list.
#[verifier::opaque]
pub open spec fn ctes_render(s: Seq<Cte>, d: Dialect, n: nat) -> (Seq<char>, Seq<Value>)
    decreases s,
{
    if s.len() == 0 {
        (Seq::empty(), Seq::empty())
    } else {
        let h = cte_render(s[0], d, n);
        if s.len() == 1 {
            h
        } else {
            let t = ctes_render(s.drop_first(), d, n + h.1.len());
            (h.0 + ", "@ + t.0, h.1 + t.1)
        }
    }
}

impl Order {
    /// Append this `ORDER BY` entry's rendering.
    pub(crate) fn build(self, d: &Dialect, sql: &mut String, args: &mut Vec<Value>)
        ensures
            final(sql)@ == old(sql)@ + order_render(self, *d, old(args)@.len()).0,
            final(args)@ == old(args)@ + order_render(self, *d, old(args)@.len()).1,
        decreases self,
    {
        let ghost n0 = old(args)@.len();
        let Order(e, srt) = self;
        e.build(d, sql, args);
        if let Some(s) = srt {
            sql.append(" ");
            s.build(sql);
        }
        proof {
            assert(sql@ =~= old(sql)@ + order_render(self, *d, n0).0);
        }
    }
}

impl Field {
    /// Append this field's rendering, alias included.
    pub(crate) fn build(self, d: &Dialect, sql: &mut String, args: &mut Vec<Value>)
        ensures
            final(sql)@ == old(sql)@ + field_render(self, *d, old(args)@.len()).0,
            final(args)@ == old(args)@ + field_render(self, *d, old(args)@.len()).1,
        decreases self,
    {
        let ghost n0 = old(args)@.len();
        let Field { expr, alias } = self;
        expr.build(d, sql, args);
        if let Some(a) = alias {
            sql.append(" AS ");
            a.build(d, sql);
        }
        proof {
            assert(sql@ =~= old(sql)@ + field_render(self, *d, n0).0);
        }
    }
}

impl Table {
    /// Append this `FROM` entry's rendering, alias included.
    pub(crate) fn build(self, d: &Dialect, sql: &mut String, args: &mut Vec<Value>)
        ensures
            final(sql)@ == old(sql)@ + table_render(self, *d, old(args)@.len()).0,
            final(args)@ == old(args)@ + table_render(self, *d, old(args)@.len()).1,
        decreases self,
    {
        let ghost n0 = old(args)@.len();
        let Table { table, alias } = self;
        table.build(d, sql, args);
        if let Some(a) = alias {
            sql.append(" AS ");
            a.build(d, sql);
        }
        proof {
            assert(sql@ =~= old(sql)@ + table_render(self, *d, n0).0);
        }
    }
}

/// Append a function call: the reference, then the parenthesised argument
/// list.
pub(crate) fn build_func_call(f: FuncCall, d: &Dialect, sql: &mut String, args: &mut Vec<Value>)
    ensures
        final(sql)@ == old(sql)@ + func_call_render(f, *d, old(args)@.len()).0,
        final(args)@ == old(args)@ + func_call_render(f, *d, old(args)@.len()).1,
    decreases f,
{
    let ghost n0 = old(args)@.len();
    let FuncCall(fr, fargs) = f;
    fr.build(d, sql);
    sql.append("(");
    crate::build::expr::build_exprs(fargs, d, sql, args);
    sql.append(")");
    proof {
        assert(sql@ =~= old(sql)@ + func_call_render(f, *d, n0).0);
    }
}

impl Row {
    /// Append this tuple's rendering: its expressions in parentheses.
    pub(crate) fn build(self, d: &Dialect, sql: &mut String, args: &mut Vec<Value>)
        ensures
            final(sql)@ == old(sql)@ + row_render(self, *d, old(args)@.len()).0,
            final(args)@ == old(args)@ + row_render(self, *d, old(args)@.len()).1,
        decreases self,
    {
        let ghost n0 = old(args)@.len();
        let Row(es) = self;
        sql.append("(");
        crate::build::expr::build_exprs(es, d, sql, args);
        sql.append(")");
        proof {
            assert(sql@ =~= old(sql)@ + row_render(self, *d, n0).0);
        }
    }
}

impl Cte {
    /// Append this `WITH` entry's rendering.
    pub(crate) fn build(self, d: &Dialect, sql: &mut String, args: &mut Vec<Value>)
        ensures
            final(sql)@ == old(sql)@ + cte_render(self, *d, old(args)@.len()).0,
            final(args)@ == old(args)@ + cte_render(self, *d, old(args)@.len()).1,
        decreases self,
    {
        let ghost n0 = old(args)@.len();
        let Cte { name, columns, stmt } = self;
        name.build(d, sql);
        if columns.len() > 0 {
            sql.append("(");
            build_idents(columns, d, sql);
            sql.append(")");
        }
        sql.append(" AS (");
        stmt.build(d, sql, args);
        sql.append(")");
        proof {
            assert(sql@ =~= old(sql)@ + cte_render(self, *d, n0).0);
        }
    }
}

/// Append one `SET` assignment: the column, ` = `, the expression.
#[verifier::rlimit(100)]
pub(crate) fn build_set_pair(
    p: (Ident, Expr),
    d: &Dialect,
    sql: &mut String,
    args: &mut Vec<Value>,
)
    ensures
        final(sql)@ == old(sql)@ + set_pair_render(p, *d, old(args)@.len()).0,
        final(args)@ == old(args)@ + set_pair_render(p, *d, old(args)@.len()).1,
    decreases p,
{
    let ghost n0 = old(args)@.len();
    let (col, e) = p;
    col.build(d, sql);
    sql.append(" = ");
    e.build(d, sql, args);
    proof {
        let a = d.ident_sql(p.0.0@);
        let c = expr_render(p.1, *d, n0).0;
        vstd::seq_lib::lemma_concat_associative(old(sql)@, a, " = "@);
        vstd::seq_lib::lemma_concat_associative(old(sql)@, a + " = "@, c);
    }
}

/// Rendering of one `SET` assignment: the column, ` = `, the expression.
pub open spec fn set_pair_render(p: (Ident, Expr), d: Dialect, n: nat) -> (Seq<char>, Seq<Value>)
    decreases p,
{
    let r = expr_render(p.1, d, n);
    (d.ident_sql(p.0.0@) + " = "@ + r.0, r.1)
}

/// Rendering of a comma-separated assignment list.
#[verifier::opaque]
pub open spec fn sets_render(s: Seq<(Ident, Expr)>, d: Dialect, n: nat) -> (Seq<char>, Seq<Value>)
    decreases s,
{
    if s.len() == 0 {
        (Seq::empty(), Seq::empty())
    } else {
        let h = set_pair_render(s[0], d, n);
        if s.len() == 1 {
            h
        } else {
            let t = sets_render(s.drop_first(), d, n + h.1.len());
            (h.0 + ", "@ + t.0, h.1 + t.1)
        }
    }
}

/// Append a comma-separated field list.
#[verifier::loop_isolation(false)]
#[verifier::rlimit(100)]
#[verifier::spinoff_prover]
pub(crate) fn build_fields(list: Vec<Field>, d: &Dialect, sql: &mut String, args: &mut Vec<Value>)
    ensures
        final(sql)@ == old(sql)@ + fields_render(list@, *d, old(args)@.len()).0,
        final(args)@ == old(args)@ + fields_render(list@, *d, old(args)@.len()).1,
    decreases list,
{
    proof {
        reveal_with_fuel(fields_render, 2);
    }
    let ghost v0 = list@;
    let mut v = list;
    if v.len() == 0 {
        proof {
            assert(sql@ =~= old(sql)@ + fields_render(v0, *d, old(args)@.len()).0);
            assert(args@ =~= old(args)@ + fields_render(v0, *d, old(args)@.len()).1);
        }
        return ;
    }
    let head = v.remove(0);
    proof {
        assert(v0[0] == head);
        vstd::std_specs::vec::axiom_vec_index_decreases(list, 0);
    }
    head.build(d, sql, args);
    proof {
        assert(v0.drop_first() =~= v@);
        if v@.len() == 0 {
            assert(sql@ =~= old(sql)@ + fields_render(v0, *d, old(args)@.len()).0);
            assert(args@ =~= old(args)@ + fields_render(v0, *d, old(args)@.len()).1);
        } else {
            assert(old(sql)@ + fields_render(v0, *d, old(args)@.len()).0 =~= sql@ + ", "@
                + fields_render(v@, *d, args@.len()).0);
            assert(old(args)@ + fields_render(v0, *d, old(args)@.len()).1 =~= args@ + fields_render(
                v@,
                *d,
                args@.len(),
            ).1);
        }
    }
    while v.len() > 0
        invariant
            v@.len() <= v0.len(),
            v@ =~= v0.subrange(v0.len() - v@.len(), v0.len() as int),
            if v@.len() == 0 {
                sql@ =~= old(sql)@ + fields_render(v0, *d, old(args)@.len()).0 && args@ =~= old(
                    args,
                )@ + fields_render(v0, *d, old(args)@.len()).1
            } else {
                old(sql)@ + fields_render(v0, *d, old(args)@.len()).0 =~= sql@ + ", "@
                    + fields_render(v@, *d, args@.len()).0 && old(args)@ + fields_render(
                    v0,
                    *d,
                    old(args)@.len(),
                ).1 =~= args@ + fields_render(v@, *d, args@.len()).1
            },
        decreases v.len(),
    {
        let ghost pre = v@;
        proof {
            reveal_with_fuel(fields_render, 2);
        }
        sql.append(", ");
        let e = v.remove(0);
        proof {
            assert(pre[0] == e);
            assert(e == v0[v0.len() - pre.len()]);
            vstd::std_specs::vec::axiom_vec_index_decreases(list, v0.len() - pre.len());
        }
        e.build(d, sql, args);
        proof {
            assert(pre.drop_first() =~= v@);
            if v@.len() == 0 {
                assert(sql@ =~= old(sql)@ + fields_render(v0, *d, old(args)@.len()).0);
                assert(args@ =~= old(args)@ + fields_render(v0, *d, old(args)@.len()).1);
            } else {
                assert(old(sql)@ + fields_render(v0, *d, old(args)@.len()).0 =~= sql@ + ", "@
                    + fields_render(v@, *d, args@.len()).0);
                assert(old(args)@ + fields_render(v0, *d, old(args)@.len()).1 =~= args@
                    + fields_render(v@, *d, args@.len()).1);
            }
        }
    }
}

/// Append a comma-separated `FROM` entry list.
#[verifier::loop_isolation(false)]
#[verifier::rlimit(100)]
#[verifier::spinoff_prover]
pub(crate) fn build_tables(list: Vec<Table>, d: &Dialect, sql: &mut String, args: &mut Vec<Value>)
    ensures
        final(sql)@ == old(sql)@ + tables_render(list@, *d, old(args)@.len()).0,
        final(args)@ == old(args)@ + tables_render(list@, *d, old(args)@.len()).1,
    decreases list,
{
    proof {
        reveal_with_fuel(tables_render, 2);
    }
    let ghost v0 = list@;
    let mut v = list;
    if v.len() == 0 {
        proof {
            assert(sql@ =~= old(sql)@ + tables_render(v0, *d, old(args)@.len()).0);
            assert(args@ =~= old(args)@ + tables_render(v0, *d, old(args)@.len()).1);
        }
        return ;
    }
    let head = v.remove(0);
    proof {
        assert(v0[0] == head);
        vstd::std_specs::vec::axiom_vec_index_decreases(list, 0);
    }
    head.build(d, sql, args);
    proof {
        assert(v0.drop_first() =~= v@);
        if v@.len() == 0 {
            assert(sql@ =~= old(sql)@ + tables_render(v0, *d, old(args)@.len()).0);
            assert(args@ =~= old(args)@ + tables_render(v0, *d, old(args)@.len()).1);
        } else {
            assert(old(sql)@ + tables_render(v0, *d, old(args)@.len()).0 =~= sql@ + ", "@
                + tables_render(v@, *d, args@.len()).0);
            assert(old(args)@ + tables_render(v0, *d, old(args)@.len()).1 =~= args@ + tables_render(
                v@,
                *d,
                args@.len(),
            ).1);
        }
    }
    while v.len() > 0
        invariant
            v@.len() <= v0.len(),
            v@ =~= v0.subrange(v0.len() - v@.len(), v0.len() as int),
            if v@.len() == 0 {
                sql@ =~= old(sql)@ + tables_render(v0, *d, old(args)@.len()).0 && args@ =~= old(
                    args,
                )@ + tables_render(v0, *d, old(args)@.len()).1
            } else {
                old(sql)@ + tables_render(v0, *d, old(args)@.len()).0 =~= sql@ + ", "@
                    + tables_render(v@, *d, args@.len()).0 && old(args)@ + tables_render(
                    v0,
                    *d,
                    old(args)@.len(),
                ).1 =~= args@ + tables_render(v@, *d, args@.len()).1
            },
        decreases v.len(),
    {
        let ghost pre = v@;
        proof {
            reveal_with_fuel(tables_render, 2);
        }
        sql.append(", ");
        let e = v.remove(0);
        proof {
            assert(pre[0] == e);
            assert(e == v0[v0.len() - pre.len()]);
            vstd::std_specs::vec::axiom_vec_index_decreases(list, v0.len() - pre.len());
        }
        e.build(d, sql, args);
        proof {
            assert(pre.drop_first() =~= v@);
            if v@.len() == 0 {
                assert(sql@ =~= old(sql)@ + tables_render(v0, *d, old(args)@.len()).0);
                assert(args@ =~= old(args)@ + tables_render(v0, *d, old(args)@.len()).1);
            } else {
                assert(old(sql)@ + tables_render(v0, *d, old(args)@.len()).0 =~= sql@ + ", "@
                    + tables_render(v@, *d, args@.len()).0);
                assert(old(args)@ + tables_render(v0, *d, old(args)@.len()).1 =~= args@
                    + tables_render(v@, *d, args@.len()).1);
            }
        }
    }
}

/// Append a comma-separated `ORDER BY` entry list.
#[verifier::loop_isolation(false)]
#[verifier::rlimit(100)]
#[verifier::spinoff_prover]
pub(crate) fn build_orders(list: Vec<Order>, d: &Dialect, sql: &mut String, args: &mut Vec<Value>)
    ensures
        final(sql)@ == old(sql)@ + orders_render(list@, *d, old(args)@.len()).0,
        final(args)@ == old(args)@ + orders_render(list@, *d, old(args)@.len()).1,
    decreases list,
{
    proof {
        reveal_with_fuel(orders_render, 2);
    }
    let ghost v0 = list@;
    let mut v = list;
    if v.len() == 0 {
        proof {
            assert(sql@ =~= old(sql)@ + orders_render(v0, *d, old(args)@.len()).0);
            assert(args@ =~= old(args)@ + orders_render(v0, *d, old(args)@.len()).1);
        }
        return ;
    }
    let head = v.remove(0);
    proof {
        assert(v0[0] == head);
        vstd::std_specs::vec::axiom_vec_index_decreases(list, 0);
    }
    head.build(d, sql, args);
    proof {
        assert(v0.drop_first() =~= v@);
        if v@.len() == 0 {
            assert(sql@ =~= old(sql)@ + orders_render(v0, *d, old(args)@.len()).0);
            assert(args@ =~= old(args)@ + orders_render(v0, *d, old(args)@.len()).1);
        } else {
            assert(old(sql)@ + orders_render(v0, *d, old(args)@.len()).0 =~= sql@ + ", "@
                + orders_render(v@, *d, args@.len()).0);
            assert(old(args)@ + orders_render(v0, *d, old(args)@.len()).1 =~= args@ + orders_render(
                v@,
                *d,
                args@.len(),
            ).1);
        }
    }
    while v.len() > 0
        invariant
            v@.len() <= v0.len(),
            v@ =~= v0.subrange(v0.len() - v@.len(), v0.len() as int),
            if v@.len() == 0 {
                sql@ =~= old(sql)@ + orders_render(v0, *d, old(args)@.len()).0 && args@ =~= old(
                    args,
                )@ + orders_render(v0, *d, old(args)@.len()).1
            } else {
                old(sql)@ + orders_render(v0, *d, old(args)@.len()).0 =~= sql@ + ", "@
                    + orders_render(v@, *d, args@.len()).0 && old(args)@ + orders_render(
                    v0,
                    *d,
                    old(args)@.len(),
                ).1 =~= args@ + orders_render(v@, *d, args@.len()).1
            },
        decreases v.len(),
    {
        let ghost pre = v@;
        proof {
            reveal_with_fuel(orders_render, 2);
        }
        sql.append(", ");
        let e = v.remove(0);
        proof {
            assert(pre[0] == e);
            assert(e == v0[v0.len() - pre.len()]);
            vstd::std_specs::vec::axiom_vec_index_decreases(list, v0.len() - pre.len());
        }
        e.build(d, sql, args);
        proof {
            assert(pre.drop_first() =~= v@);
            if v@.len() == 0 {
                assert(sql@ =~= old(sql)@ + orders_render(v0, *d, old(args)@.len()).0);
                assert(args@ =~= old(args)@ + orders_render(v0, *d, old(args)@.len()).1);
            } else {
                assert(old(sql)@ + orders_render(v0, *d, old(args)@.len()).0 =~= sql@ + ", "@
                    + orders_render(v@, *d, args@.len()).0);
                assert(old(args)@ + orders_render(v0, *d, old(args)@.len()).1 =~= args@
                    + orders_render(v@, *d, args@.len()).1);
            }
        }
    }
}

/// Append a comma-separated row list.
#[verifier::loop_isolation(false)]
#[verifier::rlimit(100)]
pub(crate) fn build_rows(list: Vec<Row>, d: &Dialect, sql: &mut String, args: &mut Vec<Value>)
    ensures
        final(sql)@ == old(sql)@ + rows_render(list@, *d, old(args)@.len()).0,
        final(args)@ == old(args)@ + rows_render(list@, *d, old(args)@.len()).1,
    decreases list,
{
    proof {
        reveal_with_fuel(rows_render, 2);
    }
    let ghost v0 = list@;
    let mut v = list;
    if v.len() == 0 {
        proof {
            assert(sql@ =~= old(sql)@ + rows_render(v0, *d, old(args)@.len()).0);
            assert(args@ =~= old(args)@ + rows_render(v0, *d, old(args)@.len()).1);
        }
        return ;
    }
    let head = v.remove(0);
    proof {
        assert(v0[0] == head);
        vstd::std_specs::vec::axiom_vec_index_decreases(list, 0);
    }
    head.build(d, sql, args);
    proof {
        assert(v0.drop_first() =~= v@);
        if v@.len() == 0 {
            assert(sql@ =~= old(sql)@ + rows_render(v0, *d, old(args)@.len()).0);
            assert(args@ =~= old(args)@ + rows_render(v0, *d, old(args)@.len()).1);
        } else {
            assert(old(sql)@ + rows_render(v0, *d, old(args)@.len()).0 =~= sql@ + ", "@
                + rows_render(v@, *d, args@.len()).0);
            assert(old(args)@ + rows_render(v0, *d, old(args)@.len()).1 =~= args@ + rows_render(
                v@,
                *d,
                args@.len(),
            ).1);
        }
    }
    while v.len() > 0
        invariant
            v@.len() <= v0.len(),
            v@ =~= v0.subrange(v0.len() - v@.len(), v0.len() as int),
            if v@.len() == 0 {
                sql@ =~= old(sql)@ + rows_render(v0, *d, old(args)@.len()).0 && args@ =~= old(
                    args,
                )@ + rows_render(v0, *d, old(args)@.len()).1
            } else {
                old(sql)@ + rows_render(v0, *d, old(args)@.len()).0 =~= sql@ + ", "@
                    + rows_render(v@, *d, args@.len()).0 && old(args)@ + rows_render(
                    v0,
                    *d,
                    old(args)@.len(),
                ).1 =~= args@ + rows_render(v@, *d, args@.len()).1
            },
        decreases v.len(),
    {
        let ghost pre = v@;
        proof {
            reveal_with_fuel(rows_render, 2);
        }
        sql.append(", ");
        let e = v.remove(0);
        proof {
            assert(pre[0] == e);
            assert(e == v0[v0.len() - pre.len()]);
            vstd::std_specs::vec::axiom_vec_index_decreases(list, v0.len() - pre.len());
        }
        e.build(d, sql, args);
        proof {
            assert(pre.drop_first() =~= v@);
            if v@.len() == 0 {
                assert(sql@ =~= old(sql)@ + rows_render(v0, *d, old(args)@.len()).0);
                assert(args@ =~= old(args)@ + rows_render(v0, *d, old(args)@.len()).1);
            } else {
                assert(old(sql)@ + rows_render(v0, *d, old(args)@.len()).0 =~= sql@ + ", "@
                    + rows_render(v@, *d, args@.len()).0);
                assert(old(args)@ + rows_render(v0, *d, old(args)@.len()).1 =~= args@
                    + rows_render(v@, *d, args@.len()).1);
            }
        }
    }
}

/// Append a comma-separated `WITH` entry list.
#[verifier::loop_isolation(false)]
#[verifier::rlimit(100)]
#[verifier::spinoff_prover]
pub(crate) fn build_ctes(list: Vec<Cte>, d: &Dialect, sql: &mut String, args: &mut Vec<Value>)
    ensures
        final(sql)@ == old(sql)@ + ctes_render(list@, *d, old(args)@.len()).0,
        final(args)@ == old(args)@ + ctes_render(list@, *d, old(args)@.len()).1,
    decreases list,
{
    proof {
        reveal_with_fuel(ctes_render, 2);
    }
    let ghost v0 = list@;
    let mut v = list;
    if v.len() == 0 {
        proof {
            assert(sql@ =~= old(sql)@ + ctes_render(v0, *d, old(args)@.len()).0);
            assert(args@ =~= old(args)@ + ctes_render(v0, *d, old(args)@.len()).1);
        }
        return ;
    }
    let head = v.remove(0);
    proof {
        assert(v0[0] == head);
        vstd::std_specs::vec::axiom_vec_index_decreases(list, 0);
    }
    head.build(d, sql, args);
    proof {
        assert(v0.drop_first() =~= v@);
        if v@.len() == 0 {
            assert(sql@ =~= old(sql)@ + ctes_render(v0, *d, old(args)@.len()).0);
            assert(args@ =~= old(args)@ + ctes_render(v0, *d, old(args)@.len()).1);
        } else {
            assert(old(sql)@ + ctes_render(v0, *d, old(args)@.len()).0 =~= sql@ + ", "@
                + ctes_render(v@, *d, args@.len()).0);
            assert(old(args)@ + ctes_render(v0, *d, old(args)@.len()).1 =~= args@ + ctes_render(
                v@,
                *d,
                args@.len(),
            ).1);
        }
    }
    while v.len() > 0
        invariant
            v@.len() <= v0.len(),
            v@ =~= v0.subrange(v0.len() - v@.len(), v0.len() as int),
            if v@.len() == 0 {
                sql@ =~= old(sql)@ + ctes_render(v0, *d, old(args)@.len()).0 && args@ =~= old(
                    args,
                )@ + ctes_render(v0, *d, old(args)@.len()).1
            } else {
                old(sql)@ + ctes_render(v0, *d, old(args)@.len()).0 =~= sql@ + ", "@
                    + ctes_render(v@, *d, args@.len()).0 && old(args)@ + ctes_render(
                    v0,
                    *d,
                    old(args)@.len(),
                ).1 =~= args@ + ctes_render(v@, *d, args@.len()).1
            },
        decreases v.len(),
    {
        let ghost pre = v@;
        proof {
            reveal_with_fuel(ctes_render, 2);
        }
        sql.append(", ");
        let e = v.remove(0);
        proof {
            assert(pre[0] == e);
            assert(e == v0[v0.len() - pre.len()]);
            vstd::std_specs::vec::axiom_vec_index_decreases(list, v0.len() - pre.len());
        }
        e.build(d, sql, args);
        proof {
            assert(pre.drop_first() =~= v@);
            if v@.len() == 0 {
                assert(sql@ =~= old(sql)@ + ctes_render(v0, *d, old(args)@.len()).0);
                assert(args@ =~= old(args)@ + ctes_render(v0, *d, old(args)@.len()).1);
            } else {
                assert(old(sql)@ + ctes_render(v0, *d, old(args)@.len()).0 =~= sql@ + ", "@
                    + ctes_render(v@, *d, args@.len()).0);
                assert(old(args)@ + ctes_render(v0, *d, old(args)@.len()).1 =~= args@
                    + ctes_render(v@, *d, args@.len()).1);
            }
        }
    }
}

/// Append a comma-separated assignment list.
#[verifier::loop_isolation(false)]
#[verifier::rlimit(100)]
#[verifier::spinoff_prover]
pub(crate) fn build_sets(list: Vec<(Ident, Expr)>, d: &Dialect, sql: &mut String, args: &mut Vec<Value>)
    ensures
        final(sql)@ == old(sql)@ + sets_render(list@, *d, old(args)@.len()).0,
        final(args)@ == old(args)@ + sets_render(list@, *d, old(args)@.len()).1,
    decreases list,
{
    proof {
        reveal_with_fuel(sets_render, 2);
    }
    let ghost v0 = list@;
    let mut v = list;
    if v.len() == 0 {
        proof {
            assert(sql@ =~= old(sql)@ + sets_render(v0, *d, old(args)@.len()).0);
            assert(args@ =~= old(args)@ + sets_render(v0, *d, old(args)@.len()).1);
        }
        return ;
    }
    let head = v.remove(0);
    proof {
        assert(v0[0] == head);
        vstd::std_specs::vec::axiom_vec_index_decreases(list, 0);
    }
    build_set_pair(head, d, sql, args);
    proof {
        assert(v0.drop_first() =~= v@);
        let h = set_pair_render(v0[0], *d, old(args)@.len());
        if v@.len() == 0 {
            assert(sql@ == old(sql)@ + sets_render(v0, *d, old(args)@.len()).0);
            assert(args@ == old(args)@ + sets_render(v0, *d, old(args)@.len()).1);
        } else {
            let rest = sets_render(v@, *d, args@.len());
            vstd::seq_lib::lemma_concat_associative(old(sql)@, h.0, ", "@);
            vstd::seq_lib::lemma_concat_associative(old(sql)@, h.0 + ", "@, rest.0);
            vstd::seq_lib::lemma_concat_associative(old(args)@, h.1, rest.1);
            assert(old(sql)@ + sets_render(v0, *d, old(args)@.len()).0 == (sql@ + ", "@)
                + rest.0);
            assert(old(args)@ + sets_render(v0, *d, old(args)@.len()).1 == args@ + rest.1);
        }
    }
    while v.len() > 0
        invariant
            v@.len() <= v0.len(),
            v@ =~= v0.subrange(v0.len() - v@.len(), v0.len() as int),
            if v@.len() == 0 {
                sql@ == old(sql)@ + sets_render(v0, *d, old(args)@.len()).0 && args@ == old(
                    args,
                )@ + sets_render(v0, *d, old(args)@.len()).1
            } else {
                old(sql)@ + sets_render(v0, *d, old(args)@.len()).0 == (sql@ + ", "@)
                    + sets_render(v@, *d, args@.len()).0 && old(args)@ + sets_render(
                    v0,
                    *d,
                    old(args)@.len(),
                ).1 == args@ + sets_render(v@, *d, args@.len()).1
            },
        decreases v.len(),
    {
        let ghost pre = v@;
        proof {
            reveal_with_fuel(sets_render, 2);
        }
        let ghost sql_pre = sql@;
        let ghost args_pre = args@;
        sql.append(", ");
        let e = v.remove(0);
        proof {
            assert(pre[0] == e);
            assert(e == v0[v0.len() - pre.len()]);
            vstd::std_specs::vec::axiom_vec_index_decreases(list, v0.len() - pre.len());
        }
        build_set_pair(e, d, sql, args);
        proof {
            assert(pre.drop_first() =~= v@);
            let a = sql_pre + ", "@;
            let h = set_pair_render(pre[0], *d, args_pre.len());
            if v@.len() == 0 {
                assert(sets_render(pre, *d, args_pre.len()).0 == h.0);
                assert(sql@ == a + h.0);
                assert(sql@ == old(sql)@ + sets_render(v0, *d, old(args)@.len()).0);
                assert(args@ == old(args)@ + sets_render(v0, *d, old(args)@.len()).1);
            } else {
                let rest = sets_render(v@, *d, args@.len());
                vstd::seq_lib::lemma_concat_associative(a, h.0 + ", "@, rest.0);
                vstd::seq_lib::lemma_concat_associative(a, h.0, ", "@);
                vstd::seq_lib::lemma_concat_associative(args_pre, h.1, rest.1);
                assert(old(sql)@ + sets_render(v0, *d, old(args)@.len()).0 == (sql@ + ", "@)
                    + rest.0);
                assert(old(args)@ + sets_render(v0, *d, old(args)@.len()).1 == args@ + rest.1);
            }
        }
    }
}

impl Order {
    /// The human-readable inline rendering.
    pub fn sql_string(self) -> (r: String)
        ensures
            r@ == order_render(self, Dialect::display_spec(), 0).0,
    {
        let mut sql = String::new();
        let mut args: Vec<Value> = Vec::new();
        self.build(&Dialect::display(), &mut sql, &mut args);
        proof {
            assert(sql@ =~= order_render(self, Dialect::display_spec(), 0).0);
        }
        sql
    }
}

impl Field {
    /// The human-readable inline rendering.
    pub fn sql_string(self) -> (r: String)
        ensures
            r@ == field_render(self, Dialect::display_spec(), 0).0,
    {
        let mut sql = String::new();
        let mut args: Vec<Value> = Vec::new();
        self.build(&Dialect::display(), &mut sql, &mut args);
        proof {
            assert(sql@ =~= field_render(self, Dialect::display_spec(), 0).0);
        }
        sql
    }
}

impl Table {
    /// The human-readable inline rendering.
    pub fn sql_string(self) -> (r: String)
        ensures
            r@ == table_render(self, Dialect::display_spec(), 0).0,
    {
        let mut sql = String::new();
        let mut args: Vec<Value> = Vec::new();
        self.build(&Dialect::display(), &mut sql, &mut args);
        proof {
            assert(sql@ =~= table_render(self, Dialect::display_spec(), 0).0);
        }
        sql
    }
}

impl FuncCall {
    /// The human-readable inline rendering.
    pub fn sql_string(self) -> (r: String)
        ensures
            r@ == func_call_render(self, Dialect::display_spec(), 0).0,
    {
        let mut sql = String::new();
        let mut args: Vec<Value> = Vec::new();
        build_func_call(self, &Dialect::display(), &mut sql, &mut args);
        proof {
            assert(sql@ =~= func_call_render(self, Dialect::display_spec(), 0).0);
        }
        sql
    }
}

/// A field whose expression and alias hold no placeholder token.
pub open spec fn field_plain(f: Field) -> bool
    decreases f,
{
    crate::build::expr::expr_plain(f.expr) && match f.alias {
        None => true,
        Some(a) => crate::build::expr::ident_plain(a),
    }
}

/// Every field of a plain list is plain.
pub open spec fn fields_plain(s: Seq<Field>) -> bool
    decreases s,
{
    forall|i: int| 0 <= i < s.len() ==> field_plain(#[trigger] s[i])
}

/// A `FROM` entry whose table expression and alias hold no placeholder
/// token.
pub open spec fn table_plain(t: Table) -> bool
    decreases t,
{
    crate::build::table_expr::table_expr_plain(t.table) && match t.alias {
        None => true,
        Some(a) => crate::build::expr::ident_plain(a),
    }
}

/// Every entry of a plain table list is plain.
pub open spec fn tables_plain(s: Seq<Table>) -> bool
    decreases s,
{
    forall|i: int| 0 <= i < s.len() ==> table_plain(#[trigger] s[i])
}

/// A sort entry whose expression holds no placeholder token.
pub open spec fn order_plain(o: Order) -> bool
    decreases o,
{
    crate::build::expr::expr_plain(o.0)
}

/// Every entry of a plain sort list is plain.
pub open spec fn orders_plain(s: Seq<Order>) -> bool
    decreases s,
{
    forall|i: int| 0 <= i < s.len() ==> order_plain(#[trigger] s[i])
}

/// A row whose expressions hold no placeholder token.
pub open spec fn row_plain(r: Row) -> bool
    decreases r,
{
    crate::build::expr::exprs_plain(r.0@)
}

/// Every row of a plain row list is plain.
pub open spec fn rows_plain(s: Seq<Row>) -> bool
    decreases s,
{
    forall|i: int| 0 <= i < s.len() ==> row_plain(#[trigger] s[i])
}

/// Every identifier of a plain list is plain.
pub open spec fn idents_plain(s: Seq<Ident>) -> bool
    decreases s,
{
    forall|i: int| 0 <= i < s.len() ==> crate::build::expr::ident_plain(#[trigger] s[i])
}

/// A `WITH` entry whose name, labels and statement hold no placeholder
/// token.
pub open spec fn cte_plain(c: Cte) -> bool
    decreases c,
{
    crate::build::expr::ident_plain(c.name) && idents_plain(c.columns@)
        && crate::build::stmt::stmt_plain(c.stmt)
}

/// Every entry of a plain `WITH` list is plain.
pub open spec fn ctes_plain(s: Seq<Cte>) -> bool
    decreases s,
{
    forall|i: int| 0 <= i < s.len() ==> cte_plain(#[trigger] s[i])
}

/// An assignment whose column and expression hold no placeholder token.
pub open spec fn set_pair_plain(p: (Ident, Expr)) -> bool
    decreases p,
{
    crate::build::expr::ident_plain(p.0) && crate::build::expr::expr_plain(p.1)
}

/// Every assignment of a plain `SET` list is plain.
pub open spec fn sets_plain(s: Seq<(Ident, Expr)>) -> bool
    decreases s,
{
    forall|i: int| 0 <= i < s.len() ==> set_pair_plain(#[trigger] s[i])
}

/// The text of a plain identifier list holds no placeholder token.
pub(crate) proof fn lemma_idents_sql_count(s: Seq<Ident>, d: Dialect)
    requires
        d.quote != '?',
        idents_plain(s),
    ensures
        crate::utils::count_char(idents_sql(s, d), '?') == 0,
    decreases s.len(),
{
    crate::build::expr::lemma_sep_counts();
    if s.len() == 0 {
    } else if s.len() == 1 {
        crate::build::expr::lemma_ident_sql_plain(s[0], d);
    } else {
        crate::build::expr::lemma_ident_sql_plain(s[0], d);
        assert(forall|i: int|
            0 <= i < s.drop_first().len() ==> #[trigger] s.drop_first()[i] == s[i + 1]);
        lemma_idents_sql_count(s.drop_first(), d);
        crate::utils::lemma_count_char_add(d.ident_sql(s[0].0@), ", "@, '?');
        crate::utils::lemma_count_char_add(
            d.ident_sql(s[0].0@) + ", "@,
            idents_sql(s.drop_first(), d),
            '?',
        );
    }
}

/// The placeholder-count law for one field.
pub(crate) proof fn lemma_field_placeholder_count(f: Field, d: Dialect, n: nat)
    requires
        d.params == crate::build::Params::Question,
        d.quote != '?',
        field_plain(f),
    ensures
        crate::utils::count_char(field_render(f, d, n).0, '?') == field_render(f, d, n).1.len(),
    decreases f,
{
    crate::build::expr::lemma_expr_placeholder_count(f.expr, d, n);
    let r = crate::build::expr::expr_render(f.expr, d, n);
    match f.alias {
        None => {
        },
        Some(a) => {
            crate::build::lemma_keyword_counts();
            crate::build::expr::lemma_ident_sql_plain(a, d);
            crate::utils::lemma_count_char_add(r.0, " AS "@, '?');
            crate::utils::lemma_count_char_add(r.0 + " AS "@, d.ident_sql(a.0@), '?');
        },
    }
}

/// The placeholder-count law for one `FROM` entry.
pub(crate) proof fn lemma_table_placeholder_count(t: Table, d: Dialect, n: nat)
    requires
        d.params == crate::build::Params::Question,
        d.quote != '?',
        table_plain(t),
    ensures
        crate::utils::count_char(table_render(t, d, n).0, '?') == table_render(t, d, n).1.len(),
    decreases t,
{
    crate::build::table_expr::lemma_table_expr_placeholder_count(t.table, d, n);
    let r = crate::build::table_expr::table_expr_render(t.table, d, n);
    match t.alias {
        None => {
        },
        Some(a) => {
            crate::build::lemma_keyword_counts();
            crate::build::expr::lemma_ident_sql_plain(a, d);
            crate::utils::lemma_count_char_add(r.0, " AS "@, '?');
            crate::utils::lemma_count_char_add(r.0 + " AS "@, d.ident_sql(a.0@), '?');
        },
    }
}

/// The placeholder-count law for one sort entry.
pub(crate) proof fn lemma_order_placeholder_count(o: Order, d: Dialect, n: nat)
    requires
        d.params == crate::build::Params::Question,
        d.quote != '?',
        order_plain(o),
    ensures
        crate::utils::count_char(order_render(o, d, n).0, '?') == order_render(o, d, n).1.len(),
    decreases o,
{
    crate::build::expr::lemma_expr_placeholder_count(o.0, d, n);
    let r = crate::build::expr::expr_render(o.0, d, n);
    match o.1 {
        None => {
        },
        Some(srt) => {
            crate::build::lemma_keyword_counts();
            crate::build::expr::lemma_sep_counts();
            crate::utils::lemma_count_char_add(r.0, " "@, '?');
            crate::utils::lemma_count_char_add(r.0 + " "@, sort_sql(srt), '?');
        },
    }
}

/// The placeholder-count law for one row.
pub(crate) proof fn lemma_row_placeholder_count(r: Row, d: Dialect, n: nat)
    requires
        d.params == crate::build::Params::Question,
        d.quote != '?',
        row_plain(r),
    ensures
        crate::utils::count_char(row_render(r, d, n).0, '?') == row_render(r, d, n).1.len(),
    decreases r,
{
    crate::build::expr::lemma_sep_counts();
    crate::build::expr::lemma_exprs_placeholder_count(r.0@, d, n);
    let t = crate::build::expr::exprs_render(r.0@, d, n);
    crate::utils::lemma_count_char_add("("@, t.0, '?');
    crate::utils::lemma_count_char_add("("@ + t.0, ")"@, '?');
}

/// The placeholder-count law for one `WITH` entry.
pub(crate) proof fn lemma_cte_placeholder_count(c: Cte, d: Dialect, n: nat)
    requires
        d.params == crate::build::Params::Question,
        d.quote != '?',
        cte_plain(c),
    ensures
        crate::utils::count_char(cte_render(c, d, n).0, '?') == cte_render(c, d, n).1.len(),
    decreases c,
{
    crate::build::lemma_keyword_counts();
    crate::build::expr::lemma_sep_counts();
    crate::build::expr::lemma_ident_sql_plain(c.name, d);
    lemma_idents_sql_count(c.columns@, d);
    let head = d.ident_sql(c.name.0@) + if c.columns@.len() == 0 {
        Seq::<char>::empty()
    } else {
        "("@ + idents_sql(c.columns@, d) + ")"@
    };
    if c.columns@.len() > 0 {
        crate::utils::lemma_count_char_add("("@, idents_sql(c.columns@, d), '?');
        crate::utils::lemma_count_char_add("("@ + idents_sql(c.columns@, d), ")"@, '?');
        crate::utils::lemma_count_char_add(
            d.ident_sql(c.name.0@),
            "("@ + idents_sql(c.columns@, d) + ")"@,
            '?',
        );
    }
    crate::build::stmt::lemma_stmt_placeholder_count(c.stmt, d, n);
    let t = crate::build::stmt::stmt_render(c.stmt, d, n);
    crate::utils::lemma_count_char_add(head, " AS ("@, '?');
    crate::utils::lemma_count_char_add(head + " AS ("@, t.0, '?');
    crate::utils::lemma_count_char_add(head + " AS ("@ + t.0, ")"@, '?');
}

/// The placeholder-count law for one assignment.
pub(crate) proof fn lemma_set_pair_placeholder_count(p: (Ident, Expr), d: Dialect, n: nat)
    requires
        d.params == crate::build::Params::Question,
        d.quote != '?',
        set_pair_plain(p),
    ensures
        crate::utils::count_char(set_pair_render(p, d, n).0, '?') == set_pair_render(
            p,
            d,
            n,
        ).1.len(),
    decreases p,
{
    crate::build::lemma_keyword_counts();
    crate::build::expr::lemma_ident_sql_plain(p.0, d);
    crate::build::expr::lemma_expr_placeholder_count(p.1, d, n);
    let r = crate::build::expr::expr_render(p.1, d, n);
    crate::utils::lemma_count_char_add(d.ident_sql(p.0.0@), " = "@, '?');
    crate::utils::lemma_count_char_add(d.ident_sql(p.0.0@) + " = "@, r.0, '?');
}

/// The placeholder-count law for a field list.
pub(crate) proof fn lemma_fields_placeholder_count(s: Seq<Field>, d: Dialect, n: nat)
    requires
        d.params == crate::build::Params::Question,
        d.quote != '?',
        fields_plain(s),
    ensures
        crate::utils::count_char(fields_render(s, d, n).0, '?') == fields_render(s, d, n).1.len(),
    decreases s,
{
    reveal_with_fuel(fields_render, 2);
    crate::build::expr::lemma_sep_counts();
    if s.len() == 0 {
    } else {
        let h = field_render(s[0], d, n);
        lemma_field_placeholder_count(s[0], d, n);
        if s.len() == 1 {
        } else {
            assert(forall|i: int|
                0 <= i < s.drop_first().len() ==> #[trigger] s.drop_first()[i] == s[i + 1]);
            lemma_fields_placeholder_count(s.drop_first(), d, n + h.1.len());
            let t = fields_render(s.drop_first(), d, n + h.1.len());
            crate::utils::lemma_count_char_add(h.0, ", "@, '?');
            crate::utils::lemma_count_char_add(h.0 + ", "@, t.0, '?');
        }
    }
}

/// The placeholder-count law for a table list.
pub(crate) proof fn lemma_tables_placeholder_count(s: Seq<Table>, d: Dialect, n: nat)
    requires
        d.params == crate::build::Params::Question,
        d.quote != '?',
        tables_plain(s),
    ensures
        crate::utils::count_char(tables_render(s, d, n).0, '?') == tables_render(s, d, n).1.len(),
    decreases s,
{
    reveal_with_fuel(tables_render, 2);
    crate::build::expr::lemma_sep_counts();
    if s.len() == 0 {
    } else {
        let h = table_render(s[0], d, n);
        lemma_table_placeholder_count(s[0], d, n);
        if s.len() == 1 {
        } else {
            assert(forall|i: int|
                0 <= i < s.drop_first().len() ==> #[trigger] s.drop_first()[i] == s[i + 1]);
            lemma_tables_placeholder_count(s.drop_first(), d, n + h.1.len());
            let t = tables_render(s.drop_first(), d, n + h.1.len());
            crate::utils::lemma_count_char_add(h.0, ", "@, '?');
            crate::utils::lemma_count_char_add(h.0 + ", "@, t.0, '?');
        }
    }
}

/// The placeholder-count law for a sort list.
pub(crate) proof fn lemma_orders_placeholder_count(s: Seq<Order>, d: Dialect, n: nat)
    requires
        d.params == crate::build::Params::Question,
        d.quote != '?',
        orders_plain(s),
    ensures
        crate::utils::count_char(orders_render(s, d, n).0, '?') == orders_render(s, d, n).1.len(),
    decreases s,
{
    reveal_with_fuel(orders_render, 2);
    crate::build::expr::lemma_sep_counts();
    if s.len() == 0 {
    } else {
        let h = order_render(s[0], d, n);
        lemma_order_placeholder_count(s[0], d, n);
        if s.len() == 1 {
        } else {
            assert(forall|i: int|
                0 <= i < s.drop_first().len() ==> #[trigger] s.drop_first()[i] == s[i + 1]);
            lemma_orders_placeholder_count(s.drop_first(), d, n + h.1.len());
            let t = orders_render(s.drop_first(), d, n + h.1.len());
            crate::utils::lemma_count_char_add(h.0, ", "@, '?');
            crate::utils::lemma_count_char_add(h.0 + ", "@, t.0, '?');
        }
    }
}

/// The placeholder-count law for a row list.
pub(crate) proof fn lemma_rows_placeholder_count(s: Seq<Row>, d: Dialect, n: nat)
    requires
        d.params == crate::build::Params::Question,
        d.quote != '?',
        rows_plain(s),
    ensures
        crate::utils::count_char(rows_render(s, d, n).0, '?') == rows_render(s, d, n).1.len(),
    decreases s,
{
    reveal_with_fuel(rows_render, 2);
    crate::build::expr::lemma_sep_counts();
    if s.len() == 0 {
    } else {
        let h = row_render(s[0], d, n);
        lemma_row_placeholder_count(s[0], d, n);
        if s.len() == 1 {
        } else {
            assert(forall|i: int|
                0 <= i < s.drop_first().len() ==> #[trigger] s.drop_first()[i] == s[i + 1]);
            lemma_rows_placeholder_count(s.drop_first(), d, n + h.1.len());
            let t = rows_render(s.drop_first(), d, n + h.1.len());
            crate::utils::lemma_count_char_add(h.0, ", "@, '?');
            crate::utils::lemma_count_char_add(h.0 + ", "@, t.0, '?');
        }
    }
}

/// The placeholder-count law for a `WITH` entry list.
pub(crate) proof fn lemma_ctes_placeholder_count(s: Seq<Cte>, d: Dialect, n: nat)
    requires
        d.params == crate::build::Params::Question,
        d.quote != '?',
        ctes_plain(s),
    ensures
        crate::utils::count_char(ctes_render(s, d, n).0, '?') == ctes_render(s, d, n).1.len(),
    decreases s,
{
    reveal_with_fuel(ctes_render, 2);
    crate::build::expr::lemma_sep_counts();
    if s.len() == 0 {
    } else {
        let h = cte_render(s[0], d, n);
        lemma_cte_placeholder_count(s[0], d, n);
        if s.len() == 1 {
        } else {
            assert(forall|i: int|
                0 <= i < s.drop_first().len() ==> #[trigger] s.drop_first()[i] == s[i + 1]);
            lemma_ctes_placeholder_count(s.drop_first(), d, n + h.1.len());
            let t = ctes_render(s.drop_first(), d, n + h.1.len());
            crate::utils::lemma_count_char_add(h.0, ", "@, '?');
            crate::utils::lemma_count_char_add(h.0 + ", "@, t.0, '?');
        }
    }
}

/// The placeholder-count law for a assignment list.
pub(crate) proof fn lemma_sets_placeholder_count(s: Seq<(Ident, Expr)>, d: Dialect, n: nat)
    requires
        d.params == crate::build::Params::Question,
        d.quote != '?',
        sets_plain(s),
    ensures
        crate::utils::count_char(sets_render(s, d, n).0, '?') == sets_render(s, d, n).1.len(),
    decreases s,
{
    reveal_with_fuel(sets_render, 2);
    crate::build::expr::lemma_sep_counts();
    if s.len() == 0 {
    } else {
        let h = set_pair_render(s[0], d, n);
        lemma_set_pair_placeholder_count(s[0], d, n);
        if s.len() == 1 {
        } else {
            assert(forall|i: int|
                0 <= i < s.drop_first().len() ==> #[trigger] s.drop_first()[i] == s[i + 1]);
            lemma_sets_placeholder_count(s.drop_first(), d, n + h.1.len());
            let t = sets_render(s.drop_first(), d, n + h.1.len());
            crate::utils::lemma_count_char_add(h.0, ", "@, '?');
            crate::utils::lemma_count_char_add(h.0 + ", "@, t.0, '?');
        }
    }
}

} // verus!
