//! Rendering of table expressions.

use vstd::prelude::*;

use crate::build::expr::expr_render;
use crate::build::item::func_call_render;
use crate::build::item::table_ref_sql;
use crate::build::stmt::data_render;
use crate::build::Dialect;
use crate::table_expr::TableExpr;
use crate::value::Value;

verus! {

/// Rendering of a table expression.  A join renders its left operand, the
/// join keyword, its right operand, and for the conditional forms ` ON `
/// and the condition.
pub open spec fn table_expr_render(t: TableExpr, d: Dialect, n: nat) -> (Seq<char>, Seq<Value>)
    decreases t,
{
    match t {
        TableExpr::TableRef(r) => (table_ref_sql(r, d), Seq::empty()),
        TableExpr::FuncCall(f) => func_call_render(f, d, n),
        TableExpr::Join(l, r, c) => {
            let lr = table_expr_render(*l, d, n);
            let rr = table_expr_render(*r, d, n + lr.1.len());
            let cr = expr_render(c, d, n + lr.1.len() + rr.1.len());
            (lr.0 + " JOIN "@ + rr.0 + " ON "@ + cr.0, lr.1 + rr.1 + cr.1)
        },
        TableExpr::LeftJoin(l, r, c) => {
            let lr = table_expr_render(*l, d, n);
            let rr = table_expr_render(*r, d, n + lr.1.len());
            let cr = expr_render(c, d, n + lr.1.len() + rr.1.len());
            (lr.0 + " LEFT JOIN "@ + rr.0 + " ON "@ + cr.0, lr.1 + rr.1 + cr.1)
        },
        TableExpr::RightJoin(l, r, c) => {
            let lr = table_expr_render(*l, d, n);
            let rr = table_expr_render(*r, d, n + lr.1.len());
            let cr = expr_render(c, d, n + lr.1.len() + rr.1.len());
            (lr.0 + " RIGHT JOIN "@ + rr.0 + " ON "@ + cr.0, lr.1 + rr.1 + cr.1)
        },
        TableExpr::FullJoin(l, r, c) => {
            let lr = table_expr_render(*l, d, n);
            let rr = table_expr_render(*r, d, n + lr.1.len());
            let cr = expr_render(c, d, n + lr.1.len() + rr.1.len());
            (lr.0 + " FULL JOIN "@ + rr.0 + " ON "@ + cr.0, lr.1 + rr.1 + cr.1)
        },
        TableExpr::NaturalJoin(l, r) => {
            let lr = table_expr_render(*l, d, n);
            let rr = table_expr_render(*r, d, n + lr.1.len());
            (lr.0 + " NATURAL JOIN "@ + rr.0, lr.1 + rr.1)
        },
        TableExpr::NaturalLeftJoin(l, r) => {
            let lr = table_expr_render(*l, d, n);
            let rr = table_expr_render(*r, d, n + lr.1.len());
            (lr.0 + " NATURAL LEFT JOIN "@ + rr.0, lr.1 + rr.1)
        },
        TableExpr::NaturalRightJoin(l, r) => {
            let lr = table_expr_render(*l, d, n);
            let rr = table_expr_render(*r, d, n + lr.1.len());
            (lr.0 + " NATURAL RIGHT JOIN "@ + rr.0, lr.1 + rr.1)
        },
        TableExpr::NaturalFullJoin(l, r) => {
            let lr = table_expr_render(*l, d, n);
            let rr = table_expr_render(*r, d, n + lr.1.len());
            (lr.0 + " NATURAL FULL JOIN "@ + rr.0, lr.1 + rr.1)
        },
        TableExpr::CrossJoin(l, r) => {
            let lr = table_expr_render(*l, d, n);
            let rr = table_expr_render(*r, d, n + lr.1.len());
            (lr.0 + " CROSS JOIN "@ + rr.0, lr.1 + rr.1)
        },
        TableExpr::SubQuery(q) => {
            let r = data_render(q, d, n);
            ("("@ + r.0 + ")"@, r.1)
        },
    }
}

impl TableExpr {
    /// Append this table expression's rendering.
    pub(crate) fn build(self, d: &Dialect, sql: &mut String, args: &mut Vec<Value>)
        ensures
            final(sql)@ == old(sql)@ + table_expr_render(self, *d, old(args)@.len()).0,
            final(args)@ == old(args)@ + table_expr_render(self, *d, old(args)@.len()).1,
        decreases self,
    {
        let ghost n0 = old(args)@.len();
        match self {
            TableExpr::TableRef(r) => {
                r.build(d, sql);
                proof {
                    assert(args@ =~= old(args)@ + table_expr_render(self, *d, n0).1);
                }
            },
            TableExpr::FuncCall(f) => {
                crate::build::item::build_func_call(f, d, sql, args);
            },
            TableExpr::Join(l, r, c) => {
                (*l).build(d, sql, args);
                sql.append(" JOIN ");
                (*r).build(d, sql, args);
                sql.append(" ON ");
                c.build(d, sql, args);
                proof {
                    assert(sql@ =~= old(sql)@ + table_expr_render(self, *d, n0).0);
                    assert(args@ =~= old(args)@ + table_expr_render(self, *d, n0).1);
                }
            },
            TableExpr::LeftJoin(l, r, c) => {
                (*l).build(d, sql, args);
                sql.append(" LEFT JOIN ");
                (*r).build(d, sql, args);
                sql.append(" ON ");
                c.build(d, sql, args);
                proof {
                    assert(sql@ =~= old(sql)@ + table_expr_render(self, *d, n0).0);
                    assert(args@ =~= old(args)@ + table_expr_render(self, *d, n0).1);
                }
            },
            TableExpr::RightJoin(l, r, c) => {
                (*l).build(d, sql, args);
                sql.append(" RIGHT JOIN ");
                (*r).build(d, sql, args);
                sql.append(" ON ");
                c.build(d, sql, args);
                proof {
                    assert(sql@ =~= old(sql)@ + table_expr_render(self, *d, n0).0);
                    assert(args@ =~= old(args)@ + table_expr_render(self, *d, n0).1);
                }
            },
            TableExpr::FullJoin(l, r, c) => {
                (*l).build(d, sql, args);
                sql.append(" FULL JOIN ");
                (*r).build(d, sql, args);
                sql.append(" ON ");
                c.build(d, sql, args);
                proof {
                    assert(sql@ =~= old(sql)@ + table_expr_render(self, *d, n0).0);
                    assert(args@ =~= old(args)@ + table_expr_render(self, *d, n0).1);
                }
            },
            TableExpr::NaturalJoin(l, r) => {
                (*l).build(d, sql, args);
                sql.append(" NATURAL JOIN ");
                (*r).build(d, sql, args);
                proof {
                    assert(sql@ =~= old(sql)@ + table_expr_render(self, *d, n0).0);
                    assert(args@ =~= old(args)@ + table_expr_render(self, *d, n0).1);
                }
            },
            TableExpr::NaturalLeftJoin(l, r) => {
                (*l).build(d, sql, args);
                sql.append(" NATURAL LEFT JOIN ");
                (*r).build(d, sql, args);
                proof {
                    assert(sql@ =~= old(sql)@ + table_expr_render(self, *d, n0).0);
                    assert(args@ =~= old(args)@ + table_expr_render(self, *d, n0).1);
                }
            },
            TableExpr::NaturalRightJoin(l, r) => {
                (*l).build(d, sql, args);
                sql.append(" NATURAL RIGHT JOIN ");
                (*r).build(d, sql, args);
                proof {
                    assert(sql@ =~= old(sql)@ + table_expr_render(self, *d, n0).0);
                    assert(args@ =~= old(args)@ + table_expr_render(self, *d, n0).1);
                }
            },
            TableExpr::NaturalFullJoin(l, r) => {
                (*l).build(d, sql, args);
                sql.append(" NATURAL FULL JOIN ");
                (*r).build(d, sql, args);
                proof {
                    assert(sql@ =~= old(sql)@ + table_expr_render(self, *d, n0).0);
                    assert(args@ =~= old(args)@ + table_expr_render(self, *d, n0).1);
                }
            },
            TableExpr::CrossJoin(l, r) => {
                (*l).build(d, sql, args);
                sql.append(" CROSS JOIN ");
                (*r).build(d, sql, args);
                proof {
                    assert(sql@ =~= old(sql)@ + table_expr_render(self, *d, n0).0);
                    assert(args@ =~= old(args)@ + table_expr_render(self, *d, n0).1);
                }
            },
            TableExpr::SubQuery(q) => {
                sql.append("(");
                q.build(d, sql, args);
                sql.append(")");
                proof {
                    assert(sql@ =~= old(sql)@ + table_expr_render(self, *d, n0).0);
                }
            },
        }
    }
}

impl TableExpr {
    /// The human-readable inline rendering.
    pub fn sql_string(self) -> (r: String)
        ensures
            r@ == table_expr_render(self, Dialect::display_spec(), 0).0,
    {
        let mut sql = String::new();
        let mut args: Vec<Value> = Vec::new();
        self.build(&Dialect::display(), &mut sql, &mut args);
        proof {
            assert(sql@ =~= table_expr_render(self, Dialect::display_spec(), 0).0);
        }
        sql
    }
}

/// A table expression whose identifiers hold no placeholder token, down
/// through any subquery.
pub open spec fn table_expr_plain(t: TableExpr) -> bool
    decreases t,
{
    match t {
        TableExpr::TableRef(r) => crate::build::expr::table_ref_plain(r),
        TableExpr::FuncCall(f) => crate::build::expr::func_ref_plain(f.0)
            && crate::build::expr::exprs_plain(f.1@),
        TableExpr::Join(l, r, c) => table_expr_plain(*l) && table_expr_plain(*r)
            && crate::build::expr::expr_plain(c),
        TableExpr::LeftJoin(l, r, c) => table_expr_plain(*l) && table_expr_plain(*r)
            && crate::build::expr::expr_plain(c),
        TableExpr::RightJoin(l, r, c) => table_expr_plain(*l) && table_expr_plain(*r)
            && crate::build::expr::expr_plain(c),
        TableExpr::FullJoin(l, r, c) => table_expr_plain(*l) && table_expr_plain(*r)
            && crate::build::expr::expr_plain(c),
        TableExpr::NaturalJoin(l, r) => table_expr_plain(*l) && table_expr_plain(*r),
        TableExpr::NaturalLeftJoin(l, r) => table_expr_plain(*l) && table_expr_plain(*r),
        TableExpr::NaturalRightJoin(l, r) => table_expr_plain(*l) && table_expr_plain(*r),
        TableExpr::NaturalFullJoin(l, r) => table_expr_plain(*l) && table_expr_plain(*r),
        TableExpr::CrossJoin(l, r) => table_expr_plain(*l) && table_expr_plain(*r),
        TableExpr::SubQuery(q) => crate::build::stmt::data_plain(q),
    }
}

/// The placeholder-count law for a table expression: the number of
/// placeholders in its text equals the length of its argument list.
#[verifier::rlimit(100)]
pub(crate) proof fn lemma_table_expr_placeholder_count(t: TableExpr, d: Dialect, n: nat)
    requires
        d.params == crate::build::Params::Question,
        d.quote != '?',
        table_expr_plain(t),
    ensures
        crate::utils::count_char(table_expr_render(t, d, n).0, '?') == table_expr_render(
            t,
            d,
            n,
        ).1.len(),
    decreases t,
{
    reveal_with_fuel(table_expr_render, 2);
    crate::build::lemma_keyword_counts();
    crate::build::expr::lemma_sep_counts();
    match t {
        TableExpr::TableRef(r) => {
            crate::build::expr::lemma_table_ref_plain(r, d);
        },
        TableExpr::FuncCall(f) => {
            crate::build::expr::lemma_exprs_placeholder_count(f.1@, d, n);
            crate::build::expr::lemma_func_ref_plain(f.0, d);
            let fr = crate::build::item::func_ref_sql(f.0, d);
            let s = crate::build::expr::exprs_render(f.1@, d, n);
            crate::utils::lemma_count_char_add(fr, "("@, '?');
            crate::utils::lemma_count_char_add(fr + "("@, s.0, '?');
            crate::utils::lemma_count_char_add(fr + "("@ + s.0, ")"@, '?');
            crate::build::item::lemma_func_call_render_shape(f, d, n);
        },
        TableExpr::Join(l, r, c) => {
            lemma_table_expr_placeholder_count(*l, d, n);
            let lr = table_expr_render(*l, d, n);
            lemma_table_expr_placeholder_count(*r, d, n + lr.1.len());
            let rr = table_expr_render(*r, d, n + lr.1.len());
            crate::build::expr::lemma_expr_placeholder_count(c, d, n + lr.1.len() + rr.1.len());
            let cr = expr_render(c, d, n + lr.1.len() + rr.1.len());
            crate::utils::lemma_count_char_add(lr.0, " JOIN "@, '?');
            crate::utils::lemma_count_char_add(lr.0 + " JOIN "@, rr.0, '?');
            crate::utils::lemma_count_char_add(lr.0 + " JOIN "@ + rr.0, " ON "@, '?');
            crate::utils::lemma_count_char_add(lr.0 + " JOIN "@ + rr.0 + " ON "@, cr.0, '?');
        },
        TableExpr::LeftJoin(l, r, c) => {
            lemma_table_expr_placeholder_count(*l, d, n);
            let lr = table_expr_render(*l, d, n);
            lemma_table_expr_placeholder_count(*r, d, n + lr.1.len());
            let rr = table_expr_render(*r, d, n + lr.1.len());
            crate::build::expr::lemma_expr_placeholder_count(c, d, n + lr.1.len() + rr.1.len());
            let cr = expr_render(c, d, n + lr.1.len() + rr.1.len());
            crate::utils::lemma_count_char_add(lr.0, " LEFT JOIN "@, '?');
            crate::utils::lemma_count_char_add(lr.0 + " LEFT JOIN "@, rr.0, '?');
            crate::utils::lemma_count_char_add(lr.0 + " LEFT JOIN "@ + rr.0, " ON "@, '?');
            crate::utils::lemma_count_char_add(lr.0 + " LEFT JOIN "@ + rr.0 + " ON "@, cr.0, '?');
        },
        TableExpr::RightJoin(l, r, c) => {
            lemma_table_expr_placeholder_count(*l, d, n);
            let lr = table_expr_render(*l, d, n);
            lemma_table_expr_placeholder_count(*r, d, n + lr.1.len());
            let rr = table_expr_render(*r, d, n + lr.1.len());
            crate::build::expr::lemma_expr_placeholder_count(c, d, n + lr.1.len() + rr.1.len());
            let cr = expr_render(c, d, n + lr.1.len() + rr.1.len());
            crate::utils::lemma_count_char_add(lr.0, " RIGHT JOIN "@, '?');
            crate::utils::lemma_count_char_add(lr.0 + " RIGHT JOIN "@, rr.0, '?');
            crate::utils::lemma_count_char_add(lr.0 + " RIGHT JOIN "@ + rr.0, " ON "@, '?');
            crate::utils::lemma_count_char_add(lr.0 + " RIGHT JOIN "@ + rr.0 + " ON "@, cr.0, '?');
        },
        TableExpr::FullJoin(l, r, c) => {
            lemma_table_expr_placeholder_count(*l, d, n);
            let lr = table_expr_render(*l, d, n);
            lemma_table_expr_placeholder_count(*r, d, n + lr.1.len());
            let rr = table_expr_render(*r, d, n + lr.1.len());
            crate::build::expr::lemma_expr_placeholder_count(c, d, n + lr.1.len() + rr.1.len());
            let cr = expr_render(c, d, n + lr.1.len() + rr.1.len());
            crate::utils::lemma_count_char_add(lr.0, " FULL JOIN "@, '?');
            crate::utils::lemma_count_char_add(lr.0 + " FULL JOIN "@, rr.0, '?');
            crate::utils::lemma_count_char_add(lr.0 + " FULL JOIN "@ + rr.0, " ON "@, '?');
            crate::utils::lemma_count_char_add(lr.0 + " FULL JOIN "@ + rr.0 + " ON "@, cr.0, '?');
        },
        TableExpr::NaturalJoin(l, r) => {
            lemma_table_expr_placeholder_count(*l, d, n);
            let lr = table_expr_render(*l, d, n);
            lemma_table_expr_placeholder_count(*r, d, n + lr.1.len());
            let rr = table_expr_render(*r, d, n + lr.1.len());
            crate::utils::lemma_count_char_add(lr.0, " NATURAL JOIN "@, '?');
            crate::utils::lemma_count_char_add(lr.0 + " NATURAL JOIN "@, rr.0, '?');
        },
        TableExpr::NaturalLeftJoin(l, r) => {
            lemma_table_expr_placeholder_count(*l, d, n);
            let lr = table_expr_render(*l, d, n);
            lemma_table_expr_placeholder_count(*r, d, n + lr.1.len());
            let rr = table_expr_render(*r, d, n + lr.1.len());
            crate::utils::lemma_count_char_add(lr.0, " NATURAL LEFT JOIN "@, '?');
            crate::utils::lemma_count_char_add(lr.0 + " NATURAL LEFT JOIN "@, rr.0, '?');
        },
        TableExpr::NaturalRightJoin(l, r) => {
            lemma_table_expr_placeholder_count(*l, d, n);
            let lr = table_expr_render(*l, d, n);
            lemma_table_expr_placeholder_count(*r, d, n + lr.1.len());
            let rr = table_expr_render(*r, d, n + lr.1.len());
            crate::utils::lemma_count_char_add(lr.0, " NATURAL RIGHT JOIN "@, '?');
            crate::utils::lemma_count_char_add(lr.0 + " NATURAL RIGHT JOIN "@, rr.0, '?');
        },
        TableExpr::NaturalFullJoin(l, r) => {
            lemma_table_expr_placeholder_count(*l, d, n);
            let lr = table_expr_render(*l, d, n);
            lemma_table_expr_placeholder_count(*r, d, n + lr.1.len());
            let rr = table_expr_render(*r, d, n + lr.1.len());
            crate::utils::lemma_count_char_add(lr.0, " NATURAL FULL JOIN "@, '?');
            crate::utils::lemma_count_char_add(lr.0 + " NATURAL FULL JOIN "@, rr.0, '?');
        },
        TableExpr::CrossJoin(l, r) => {
            lemma_table_expr_placeholder_count(*l, d, n);
            let lr = table_expr_render(*l, d, n);
            lemma_table_expr_placeholder_count(*r, d, n + lr.1.len());
            let rr = table_expr_render(*r, d, n + lr.1.len());
            crate::utils::lemma_count_char_add(lr.0, " CROSS JOIN "@, '?');
            crate::utils::lemma_count_char_add(lr.0 + " CROSS JOIN "@, rr.0, '?');
        },
        TableExpr::SubQuery(q) => {
            crate::build::stmt::lemma_data_placeholder_count(q, d, n);
            let s = crate::build::stmt::data_render(q, d, n);
            crate::utils::lemma_count_char_add("("@, s.0, '?');
            crate::utils::lemma_count_char_add("("@ + s.0, ")"@, '?');
        },
    }
}

} // verus!
