//! Rendering of expressions.

use vstd::prelude::*;

use crate::build::item::column_ref_sql;
use crate::build::item::func_call_render;
use crate::build::stmt::data_render;
use crate::build::value_sql;
use crate::build::Dialect;
use crate::expr::Expr;
use crate::value::Value;

verus! {

/// Rendering of an expression, with `n` values already emitted: the SQL
/// text appended for it, and the values it pushes onto the argument list,
/// in left-to-right, depth-first order.
pub open spec fn expr_render(e: Expr, d: Dialect, n: nat) -> (Seq<char>, Seq<Value>)
    decreases e,
{
    match e {
        Expr::Column(c) => (column_ref_sql(c, d), Seq::empty()),
        Expr::Literal(v) => (value_sql(v, d, n + 1), seq![v]),
        Expr::FuncCall(f) => func_call_render(f, d, n),
        Expr::Prefix(op, x) => {
            let r = expr_render(*x, d, n);
            (op@ + " "@ + r.0, r.1)
        },
        Expr::Infix(l, op, r) => {
            let lr = expr_render(*l, d, n);
            let rr = expr_render(*r, d, n + lr.1.len());
            (lr.0 + " "@ + op@ + " "@ + rr.0, lr.1 + rr.1)
        },
        Expr::Postfix(x, op) => {
            let r = expr_render(*x, d, n);
            (r.0 + " "@ + op@, r.1)
        },
        Expr::Paren(x) => {
            let r = expr_render(*x, d, n);
            ("("@ + r.0 + ")"@, r.1)
        },
        Expr::SubQuery(q) => {
            let r = data_render(*q, d, n);
            ("("@ + r.0 + ")"@, r.1)
        },
    }
}

/// Every literal emits exactly one placeholder and one argument, and the
/// placeholder's ordinal is the argument's one-based position: with `n`
/// values already emitted, the text gains the placeholder for position
/// `n + 1` and the argument list gains the literal itself.  Placeholder
/// order therefore matches argument order, left to right.
pub proof fn lemma_literal_placeholder(v: Value, d: Dialect, n: nat)
    requires
        d.params == crate::build::Params::Numbered,
    ensures
        expr_render(Expr::Literal(v), d, n).1 == seq![v],
        expr_render(Expr::Literal(v), d, n).0 == "$"@ + crate::build::dec_nat(n + 1),
{
}

impl Expr {
    /// Append this expression's rendering to `sql`, pushing its literals
    /// onto `args` in emission order.
    pub(crate) fn build(self, d: &Dialect, sql: &mut String, args: &mut Vec<Value>)
        ensures
            final(sql)@ == old(sql)@ + expr_render(self, *d, old(args)@.len()).0,
            final(args)@ == old(args)@ + expr_render(self, *d, old(args)@.len()).1,
        decreases self,
    {
        let ghost n0 = old(args)@.len();
        match self {
            Expr::Column(c) => {
                c.build(d, sql);
                proof {
                    assert(args@ =~= old(args)@ + expr_render(self, *d, n0).1);
                }
            },
            Expr::Literal(v) => {
                crate::build::build_value(v, d, sql, args);
                proof {
                    assert(args@ =~= old(args)@ + expr_render(self, *d, n0).1);
                }
            },
            Expr::FuncCall(f) => {
                crate::build::item::build_func_call(f, d, sql, args);
            },
            Expr::Prefix(op, x) => {
                sql.append(op);
                sql.append(" ");
                (*x).build(d, sql, args);
                proof {
                    assert(sql@ =~= old(sql)@ + expr_render(self, *d, n0).0);
                }
            },
            Expr::Infix(l, op, r) => {
                (*l).build(d, sql, args);
                sql.append(" ");
                sql.append(op);
                sql.append(" ");
                (*r).build(d, sql, args);
                proof {
                    assert(sql@ =~= old(sql)@ + expr_render(self, *d, n0).0);
                    assert(args@ =~= old(args)@ + expr_render(self, *d, n0).1);
                }
            },
            Expr::Postfix(x, op) => {
                (*x).build(d, sql, args);
                sql.append(" ");
                sql.append(op);
                proof {
                    assert(sql@ =~= old(sql)@ + expr_render(self, *d, n0).0);
                }
            },
            Expr::Paren(x) => {
                sql.append("(");
                (*x).build(d, sql, args);
                sql.append(")");
                proof {
                    assert(sql@ =~= old(sql)@ + expr_render(self, *d, n0).0);
                }
            },
            Expr::SubQuery(q) => {
                sql.append("(");
                (*q).build(d, sql, args);
                sql.append(")");
                proof {
                    assert(sql@ =~= old(sql)@ + expr_render(self, *d, n0).0);
                }
            },
        }
    }
}

/// Append a comma-separated expression list.
#[verifier::loop_isolation(false)]
#[verifier::rlimit(100)]
#[verifier::spinoff_prover]
pub(crate) fn build_exprs(list: Vec<Expr>, d: &Dialect, sql: &mut String, args: &mut Vec<Value>)
    ensures
        final(sql)@ == old(sql)@ + exprs_render(list@, *d, old(args)@.len()).0,
        final(args)@ == old(args)@ + exprs_render(list@, *d, old(args)@.len()).1,
    decreases list,
{
    proof {
        reveal_with_fuel(exprs_render, 2);
    }
    let ghost v0 = list@;
    let mut v = list;
    if v.len() == 0 {
        proof {
            assert(sql@ =~= old(sql)@ + exprs_render(v0, *d, old(args)@.len()).0);
            assert(args@ =~= old(args)@ + exprs_render(v0, *d, old(args)@.len()).1);
        }
        return ;
    }
    let head = v.remove(0);
    proof {
        assert(v0[0] == head);
        vstd::std_specs::vec::axiom_vec_index_decreases(list, 0);
    }
    head.build(d, sql, args);
    proof {
        assert(v0.drop_first() =~= v@);
        if v@.len() == 0 {
            assert(sql@ =~= old(sql)@ + exprs_render(v0, *d, old(args)@.len()).0);
            assert(args@ =~= old(args)@ + exprs_render(v0, *d, old(args)@.len()).1);
        } else {
            assert(old(sql)@ + exprs_render(v0, *d, old(args)@.len()).0 =~= sql@ + ", "@
                + exprs_render(v@, *d, args@.len()).0);
            assert(old(args)@ + exprs_render(v0, *d, old(args)@.len()).1 =~= args@ + exprs_render(
                v@,
                *d,
                args@.len(),
            ).1);
        }
    }
    while v.len() > 0
        invariant
            v@.len() <= v0.len(),
            v@ =~= v0.subrange(v0.len() - v@.len(), v0.len() as int),
            if v@.len() == 0 {
                sql@ =~= old(sql)@ + exprs_render(v0, *d, old(args)@.len()).0 && args@ =~= old(
                    args,
                )@ + exprs_render(v0, *d, old(args)@.len()).1
            } else {
                old(sql)@ + exprs_render(v0, *d, old(args)@.len()).0 =~= sql@ + ", "@
                    + exprs_render(v@, *d, args@.len()).0 && old(args)@ + exprs_render(
                    v0,
                    *d,
                    old(args)@.len(),
                ).1 =~= args@ + exprs_render(v@, *d, args@.len()).1
            },
        decreases v.len(),
    {
        let ghost pre = v@;
        proof {
            reveal_with_fuel(exprs_render, 2);
        }
        sql.append(", ");
        let e = v.remove(0);
        proof {
            assert(pre[0] == e);
            assert(e == v0[v0.len() - pre.len()]);
            vstd::std_specs::vec::axiom_vec_index_decreases(list, v0.len() - pre.len());
        }
        e.build(d, sql, args);
        proof {
            assert(pre.drop_first() =~= v@);
            if v@.len() == 0 {
                assert(sql@ =~= old(sql)@ + exprs_render(v0, *d, old(args)@.len()).0);
                assert(args@ =~= old(args)@ + exprs_render(v0, *d, old(args)@.len()).1);
            } else {
                assert(old(sql)@ + exprs_render(v0, *d, old(args)@.len()).0 =~= sql@ + ", "@
                    + exprs_render(v@, *d, args@.len()).0);
                assert(old(args)@ + exprs_render(v0, *d, old(args)@.len()).1 =~= args@
                    + exprs_render(v@, *d, args@.len()).1);
            }
        }
    }
}

/// Rendering of a comma-separated expression list.
#[verifier::opaque]
pub open spec fn exprs_render(s: Seq<Expr>, d: Dialect, n: nat) -> (Seq<char>, Seq<Value>)
    decreases s,
{
    if s.len() == 0 {
        (Seq::empty(), Seq::empty())
    } else {
        let h = expr_render(s[0], d, n);
        if s.len() == 1 {
            h
        } else {
            let t = exprs_render(s.drop_first(), d, n + h.1.len());
            (h.0 + ", "@ + t.0, h.1 + t.1)
        }
    }
}

impl Expr {
    /// The human-readable inline rendering.
    pub fn sql_string(self) -> (r: String)
        ensures
            r@ == expr_render(self, Dialect::display_spec(), 0).0,
    {
        let mut sql = String::new();
        let mut args: Vec<Value> = Vec::new();
        self.build(&Dialect::display(), &mut sql, &mut args);
        proof {
            assert(sql@ =~= expr_render(self, Dialect::display_spec(), 0).0);
        }
        sql
    }
}

/// An identifier that holds no placeholder token.
pub open spec fn ident_plain(i: crate::item::Ident) -> bool {
    crate::utils::count_char(i.0@, '?') == 0
}

/// A column reference whose parts hold no placeholder token.
pub open spec fn column_ref_plain(c: crate::item::ColumnRef) -> bool {
    match c {
        crate::item::ColumnRef::Column(i) => ident_plain(i),
        crate::item::ColumnRef::TableColumn(t, i) => ident_plain(t) && ident_plain(i),
        crate::item::ColumnRef::SchemaTableColumn(s, t, i) => ident_plain(s) && ident_plain(t)
            && ident_plain(i),
    }
}

/// A function reference whose parts hold no placeholder token.
pub open spec fn func_ref_plain(f: crate::item::FuncRef) -> bool {
    match f {
        crate::item::FuncRef::Func(i) => ident_plain(i),
        crate::item::FuncRef::SchemaFunc(s, i) => ident_plain(s) && ident_plain(i),
    }
}

/// A table reference whose parts hold no placeholder token.
pub open spec fn table_ref_plain(t: crate::item::TableRef) -> bool {
    match t {
        crate::item::TableRef::Table(i) => ident_plain(i),
        crate::item::TableRef::SchemaTable(s, i) => ident_plain(s) && ident_plain(i),
    }
}

/// An expression whose identifiers and operator tokens hold no
/// placeholder token, down through any subquery.
pub open spec fn expr_plain(e: Expr) -> bool
    decreases e,
{
    match e {
        Expr::Column(c) => column_ref_plain(c),
        Expr::Literal(_) => true,
        Expr::FuncCall(f) => func_ref_plain(f.0) && exprs_plain(f.1@),
        Expr::Prefix(op, x) => crate::utils::count_char(op@, '?') == 0 && expr_plain(*x),
        Expr::Infix(l, op, r) => expr_plain(*l) && crate::utils::count_char(op@, '?') == 0
            && expr_plain(*r),
        Expr::Postfix(x, op) => expr_plain(*x) && crate::utils::count_char(op@, '?') == 0,
        Expr::Paren(x) => expr_plain(*x),
        Expr::SubQuery(q) => crate::build::stmt::data_plain(*q),
    }
}

/// Every expression of a plain list is plain.
pub open spec fn exprs_plain(s: Seq<Expr>) -> bool
    decreases s,
{
    forall|i: int| 0 <= i < s.len() ==> expr_plain(#[trigger] s[i])
}

pub(crate) proof fn lemma_sep_counts()
    ensures
        crate::utils::count_char(" "@, '?') == 0,
        crate::utils::count_char("("@, '?') == 0,
        crate::utils::count_char(")"@, '?') == 0,
        crate::utils::count_char(", "@, '?') == 0,
        crate::utils::count_char("."@, '?') == 0,
        crate::utils::count_char("?"@, '?') == 1,
{
    reveal_strlit(" ");
    reveal_strlit("(");
    reveal_strlit(")");
    reveal_strlit(", ");
    reveal_strlit(".");
    reveal_strlit("?");
    assert(" "@ =~= seq![' ']);
    assert("("@ =~= seq!['(']);
    assert(")"@ =~= seq![')']);
    assert(", "@ =~= seq![',', ' ']);
    assert("."@ =~= seq!['.']);
    assert("?"@ =~= seq!['?']);
    crate::utils::lemma_count_char_one(' ', '?');
    crate::utils::lemma_count_char_one('(', '?');
    crate::utils::lemma_count_char_one(')', '?');
    crate::utils::lemma_count_char_two(',', ' ', '?');
    crate::utils::lemma_count_char_one('.', '?');
    crate::utils::lemma_count_char_one('?', '?');
    assert(seq!['?'].drop_first() =~= Seq::<char>::empty());
}

pub(crate) proof fn lemma_ident_sql_plain(i: crate::item::Ident, d: Dialect)
    requires
        d.quote != '?',
        ident_plain(i),
    ensures
        crate::utils::count_char(d.ident_sql(i.0@), '?') == 0,
{
    crate::utils::lemma_quoted_count(i.0@, d.quote, '?');
}

pub(crate) proof fn lemma_func_ref_plain(f: crate::item::FuncRef, d: Dialect)
    requires
        d.quote != '?',
        func_ref_plain(f),
    ensures
        crate::utils::count_char(crate::build::item::func_ref_sql(f, d), '?') == 0,
{
    lemma_sep_counts();
    match f {
        crate::item::FuncRef::Func(i) => {
            lemma_ident_sql_plain(i, d);
        },
        crate::item::FuncRef::SchemaFunc(sc, i) => {
            lemma_ident_sql_plain(sc, d);
            lemma_ident_sql_plain(i, d);
            crate::utils::lemma_count_char_add(d.ident_sql(sc.0@), "."@, '?');
            crate::utils::lemma_count_char_add(d.ident_sql(sc.0@) + "."@, d.ident_sql(i.0@), '?');
        },
    }
}

pub(crate) proof fn lemma_table_ref_plain(t: crate::item::TableRef, d: Dialect)
    requires
        d.quote != '?',
        table_ref_plain(t),
    ensures
        crate::utils::count_char(crate::build::item::table_ref_sql(t, d), '?') == 0,
{
    lemma_sep_counts();
    match t {
        crate::item::TableRef::Table(i) => {
            lemma_ident_sql_plain(i, d);
        },
        crate::item::TableRef::SchemaTable(sc, i) => {
            lemma_ident_sql_plain(sc, d);
            lemma_ident_sql_plain(i, d);
            crate::utils::lemma_count_char_add(d.ident_sql(sc.0@), "."@, '?');
            crate::utils::lemma_count_char_add(d.ident_sql(sc.0@) + "."@, d.ident_sql(i.0@), '?');
        },
    }
}

pub(crate) proof fn lemma_column_ref_plain(c: crate::item::ColumnRef, d: Dialect)
    requires
        d.quote != '?',
        column_ref_plain(c),
    ensures
        crate::utils::count_char(column_ref_sql(c, d), '?') == 0,
{
    lemma_sep_counts();
    match c {
        crate::item::ColumnRef::Column(i) => {
            lemma_ident_sql_plain(i, d);
        },
        crate::item::ColumnRef::TableColumn(t, i) => {
            lemma_ident_sql_plain(t, d);
            lemma_ident_sql_plain(i, d);
            crate::utils::lemma_count_char_add(d.ident_sql(t.0@), "."@, '?');
            crate::utils::lemma_count_char_add(d.ident_sql(t.0@) + "."@, d.ident_sql(i.0@), '?');
        },
        crate::item::ColumnRef::SchemaTableColumn(sc, t, i) => {
            lemma_ident_sql_plain(sc, d);
            lemma_ident_sql_plain(t, d);
            lemma_ident_sql_plain(i, d);
            crate::utils::lemma_count_char_add(d.ident_sql(sc.0@), "."@, '?');
            crate::utils::lemma_count_char_add(d.ident_sql(sc.0@) + "."@, d.ident_sql(t.0@), '?');
            crate::utils::lemma_count_char_add(
                d.ident_sql(sc.0@) + "."@ + d.ident_sql(t.0@),
                "."@,
                '?',
            );
            crate::utils::lemma_count_char_add(
                d.ident_sql(sc.0@) + "."@ + d.ident_sql(t.0@) + "."@,
                d.ident_sql(i.0@),
                '?',
            );
        },
    }
}

/// The number of placeholders emitted for an expression equals the length
/// of its argument list: under the repeated-token dialects, every literal
/// becomes one placeholder and one argument, and identifiers and operator
/// tokens contribute none.
pub proof fn lemma_expr_placeholder_count(e: Expr, d: Dialect, n: nat)
    requires
        d.params == crate::build::Params::Question,
        d.quote != '?',
        expr_plain(e),
    ensures
        crate::utils::count_char(expr_render(e, d, n).0, '?') == expr_render(e, d, n).1.len(),
    decreases e,
{
    reveal_with_fuel(expr_render, 3);
    lemma_sep_counts();
    match e {
        Expr::Column(c) => {
            lemma_column_ref_plain(c, d);
            assert(crate::utils::count_char(expr_render(e, d, n).0, '?') == expr_render(e, d, n).1.len());
        },
        Expr::Literal(_) => {
        },
        Expr::FuncCall(f) => {
            let t = exprs_render(f.1@, d, n);
            lemma_exprs_placeholder_count(f.1@, d, n);
            lemma_func_ref_plain(f.0, d);
            let fr = crate::build::item::func_ref_sql(f.0, d);
            crate::utils::lemma_count_char_add(fr, "("@, '?');
            crate::utils::lemma_count_char_add(fr + "("@, t.0, '?');
            crate::utils::lemma_count_char_add(fr + "("@ + t.0, ")"@, '?');
            crate::build::item::lemma_func_call_render_shape(f, d, n);
            assert(crate::utils::count_char(expr_render(e, d, n).0, '?') == expr_render(e, d, n).1.len());
        },
        Expr::Prefix(op, x) => {
            lemma_expr_placeholder_count(*x, d, n);
            let r = expr_render(*x, d, n);
            crate::utils::lemma_count_char_add(op@, " "@, '?');
            crate::utils::lemma_count_char_add(op@ + " "@, r.0, '?');
            assert(crate::utils::count_char(expr_render(e, d, n).0, '?') == expr_render(e, d, n).1.len());
        },
        Expr::Infix(l, op, r) => {
            lemma_expr_placeholder_count(*l, d, n);
            let lr = expr_render(*l, d, n);
            lemma_expr_placeholder_count(*r, d, n + lr.1.len());
            let rr = expr_render(*r, d, n + lr.1.len());
            crate::utils::lemma_count_char_add(lr.0, " "@, '?');
            crate::utils::lemma_count_char_add(lr.0 + " "@, op@, '?');
            crate::utils::lemma_count_char_add(lr.0 + " "@ + op@, " "@, '?');
            crate::utils::lemma_count_char_add(lr.0 + " "@ + op@ + " "@, rr.0, '?');
            assert(crate::utils::count_char(expr_render(e, d, n).0, '?') == expr_render(e, d, n).1.len());
        },
        Expr::Postfix(x, op) => {
            lemma_expr_placeholder_count(*x, d, n);
            let r = expr_render(*x, d, n);
            crate::utils::lemma_count_char_add(r.0, " "@, '?');
            crate::utils::lemma_count_char_add(r.0 + " "@, op@, '?');
            assert(crate::utils::count_char(expr_render(e, d, n).0, '?') == expr_render(e, d, n).1.len());
        },
        Expr::Paren(x) => {
            lemma_expr_placeholder_count(*x, d, n);
            let r = expr_render(*x, d, n);
            crate::utils::lemma_count_char_add("("@, r.0, '?');
            crate::utils::lemma_count_char_add("("@ + r.0, ")"@, '?');
            assert(crate::utils::count_char(expr_render(e, d, n).0, '?') == expr_render(e, d, n).1.len());
        },
        Expr::SubQuery(q) => {
            crate::build::stmt::lemma_data_placeholder_count(*q, d, n);
            let r = data_render(*q, d, n);
            crate::utils::lemma_count_char_add("("@, r.0, '?');
            crate::utils::lemma_count_char_add("("@ + r.0, ")"@, '?');
            assert(crate::utils::count_char(expr_render(e, d, n).0, '?') == expr_render(
                e,
                d,
                n,
            ).1.len());
        },
    }
}

/// The list form of the placeholder-count law.
pub proof fn lemma_exprs_placeholder_count(s: Seq<Expr>, d: Dialect, n: nat)
    requires
        d.params == crate::build::Params::Question,
        d.quote != '?',
        exprs_plain(s),
    ensures
        crate::utils::count_char(exprs_render(s, d, n).0, '?') == exprs_render(s, d, n).1.len(),
    decreases s,
{
    reveal_with_fuel(exprs_render, 2);
    lemma_sep_counts();
    if s.len() == 0 {
    } else {
        let h = expr_render(s[0], d, n);
        lemma_expr_placeholder_count(s[0], d, n);
        if s.len() == 1 {
        } else {
            assert(exprs_plain(s.drop_first())) by {
                assert(forall|i: int|
                    0 <= i < s.drop_first().len() ==> s.drop_first()[i] == s[i + 1]
                        && expr_plain(#[trigger] s.drop_first()[i]));
            }
            lemma_exprs_placeholder_count(s.drop_first(), d, n + h.1.len());
            let t = exprs_render(s.drop_first(), d, n + h.1.len());
            crate::utils::lemma_count_char_add(h.0, ", "@, '?');
            crate::utils::lemma_count_char_add(h.0 + ", "@, t.0, '?');
        }
    }
}

} // verus!
