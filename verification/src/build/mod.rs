//! The dialect-parameterized renderer: a single pre-order traversal of a
//! tree that writes SQL text into a buffer and collects bound values into
//! a positional list, in strict left-to-right, depth-first order.

use vstd::prelude::*;

use crate::utils::pretty_quoted;
use crate::utils::push_pretty_quoted;
use crate::utils::push_quoted;
use crate::utils::quoted;
use crate::value::Value;

pub mod clause;
pub mod expr;
pub mod item;
pub mod stmt;
pub mod table_expr;

verus! {

/// How a dialect renders a value: inlined as a literal, as a numbered
/// placeholder, or as a single repeated placeholder token.
#[derive(Clone, Copy, Debug, PartialEq, Eq, Structural)]
pub enum Params {
    Inline,
    Numbered,
    Question,
}

/// A dialect as plain data: the identifier delimiter, whether bare
/// identifiers may stay unquoted, and the placeholder policy.
#[derive(Clone, Copy, Debug, PartialEq, Eq, Structural)]
pub struct Dialect {
    pub quote: char,
    pub pretty: bool,
    pub params: Params,
}

/// A compiled query: the SQL text, the positional argument list whose
/// order matches the emitted placeholders, and the prepared-statement
/// persistence hint the execution layer may read.
#[derive(Debug, PartialEq, Eq)]
pub struct Query {
    pub sql: String,
    pub args: Vec<Value>,
    pub persistent: bool,
}

impl Query {
    /// Set the persistence hint, leaving text and arguments unchanged.
    pub fn persistent(self, persistent: bool) -> (r: Query)
        ensures
            r.sql == self.sql,
            r.args == self.args,
            r.persistent == persistent,
    {
        Query { sql: self.sql, args: self.args, persistent }
    }
}

impl Dialect {
    /// The human-readable dialect, as a spec value.
    pub open spec fn display_spec() -> Dialect {
        Dialect { quote: '"', pretty: true, params: Params::Inline }
    }

    /// The human-readable rendering: double-quote delimiters, bare
    /// identifiers kept bare, values inlined as literals.
    pub fn display() -> (d: Dialect)
        ensures
            d == Dialect::display_spec(),
    {
        Dialect { quote: '"', pretty: true, params: Params::Inline }
    }

    /// The numbered-placeholder dialect, as a spec value.
    pub open spec fn postgres_spec() -> Dialect {
        Dialect { quote: '"', pretty: false, params: Params::Numbered }
    }

    /// The backtick dialect, as a spec value.
    pub open spec fn mysql_spec() -> Dialect {
        Dialect { quote: '`', pretty: false, params: Params::Question }
    }

    /// The double-quoting repeated-token dialect, as a spec value.
    pub open spec fn sqlite_spec() -> Dialect {
        Dialect { quote: '"', pretty: false, params: Params::Question }
    }

    /// Double-quote identifier delimiters and numbered placeholders.
    pub fn postgres() -> (d: Dialect)
        ensures
            d == Dialect::postgres_spec(),
    {
        Dialect { quote: '"', pretty: false, params: Params::Numbered }
    }

    /// Backtick identifier delimiters and the repeated placeholder token.
    pub fn mysql() -> (d: Dialect)
        ensures
            d == Dialect::mysql_spec(),
    {
        Dialect { quote: '`', pretty: false, params: Params::Question }
    }

    /// Double-quote identifier delimiters and the repeated placeholder
    /// token.
    pub fn sqlite() -> (d: Dialect)
        ensures
            d == Dialect::sqlite_spec(),
    {
        Dialect { quote: '"', pretty: false, params: Params::Question }
    }

    /// How this dialect writes the name of a column, table or function.
    pub open spec fn ident_sql(self, s: Seq<char>) -> Seq<char> {
        if self.pretty {
            pretty_quoted(s, self.quote)
        } else {
            quoted(s, self.quote)
        }
    }

    /// Append an identifier to `buff` under this dialect's quoting rules.
    pub fn quote_ident(&self, name: &str, buff: &mut String)
        ensures
            final(buff)@ == old(buff)@ + self.ident_sql(name@),
    {
        if self.pretty {
            push_pretty_quoted(buff, name, self.quote);
        } else {
            push_quoted(buff, name, self.quote);
        }
    }

    /// Append a string literal to `buff`: single quotes, doubled when
    /// embedded.  Literal quoting is dialect-independent.
    pub fn quote_literal(&self, val: &str, buff: &mut String)
        ensures
            final(buff)@ == old(buff)@ + quoted(val@, '\''),
    {
        push_quoted(buff, val, '\'');
    }
}

/// The decimal digit `n`, for `n` under ten.
pub open spec fn dec_digit(n: nat) -> Seq<char> {
    if n == 0 {
        "0"@
    } else if n == 1 {
        "1"@
    } else if n == 2 {
        "2"@
    } else if n == 3 {
        "3"@
    } else if n == 4 {
        "4"@
    } else if n == 5 {
        "5"@
    } else if n == 6 {
        "6"@
    } else if n == 7 {
        "7"@
    } else if n == 8 {
        "8"@
    } else {
        "9"@
    }
}

/// The shortest decimal form of a natural number.
pub open spec fn dec_nat(n: nat) -> Seq<char>
    decreases n,
{
    if n < 10 {
        dec_digit(n)
    } else {
        dec_nat(n / 10) + dec_digit(n % 10)
    }
}

/// The shortest decimal form of an integer, with a leading minus sign when
/// negative.
pub open spec fn dec_int(i: int) -> Seq<char> {
    if i < 0 {
        "-"@ + dec_nat((-i) as nat)
    } else {
        dec_nat(i as nat)
    }
}

/// Append the decimal form of `n` to `sql`.
pub(crate) fn push_dec(sql: &mut String, n: u64)
    ensures
        final(sql)@ == old(sql)@ + dec_nat(n as nat),
    decreases n,
{
    if n >= 10 {
        push_dec(sql, n / 10);
    }
    let d = n % 10;
    if d == 0 {
        sql.append("0");
    } else if d == 1 {
        sql.append("1");
    } else if d == 2 {
        sql.append("2");
    } else if d == 3 {
        sql.append("3");
    } else if d == 4 {
        sql.append("4");
    } else if d == 5 {
        sql.append("5");
    } else if d == 6 {
        sql.append("6");
    } else if d == 7 {
        sql.append("7");
    } else if d == 8 {
        sql.append("8");
    } else {
        sql.append("9");
    }
}

/// Append the decimal form of `i` to `sql`, minus sign included.
pub(crate) fn push_int(sql: &mut String, i: i64)
    ensures
        final(sql)@ == old(sql)@ + dec_int(i as int),
{
    if i < 0 {
        sql.append("-");
        let m: u64 = ((-(i + 1)) as u64) + 1;
        assert(m as nat == (-(i as int)) as nat);
        push_dec(sql, m);
    } else {
        push_dec(sql, i as u64);
    }
}

/// The lowercase hexadecimal digit `n`, for `n` under sixteen.
pub open spec fn hex_digit(n: nat) -> Seq<char> {
    if n < 10 {
        dec_digit(n)
    } else if n == 10 {
        "a"@
    } else if n == 11 {
        "b"@
    } else if n == 12 {
        "c"@
    } else if n == 13 {
        "d"@
    } else if n == 14 {
        "e"@
    } else {
        "f"@
    }
}

/// The two hexadecimal digits of one byte.
pub open spec fn byte_hex(b: u8) -> Seq<char> {
    hex_digit((b / 16) as nat) + hex_digit((b % 16) as nat)
}

/// The hexadecimal form of a byte string, two digits per byte.
pub open spec fn bytes_hex(s: Seq<u8>) -> Seq<char>
    decreases s.len(),
{
    if s.len() == 0 {
        Seq::empty()
    } else {
        byte_hex(s[0]) + bytes_hex(s.drop_first())
    }
}

proof fn lemma_bytes_hex_snoc(s: Seq<u8>, b: u8)
    ensures
        bytes_hex(s.push(b)) == bytes_hex(s) + byte_hex(b),
    decreases s.len(),
{
    let t = s.push(b);
    if s.len() == 0 {
        assert(t[0] == b);
        assert(t.drop_first() =~= Seq::<u8>::empty());
        assert(bytes_hex(t.drop_first()) == Seq::<char>::empty());
        assert(bytes_hex(t) =~= bytes_hex(s) + byte_hex(b));
    } else {
        lemma_bytes_hex_snoc(s.drop_first(), b);
        assert(t[0] == s[0]);
        assert(t.drop_first() =~= s.drop_first().push(b));
        assert(bytes_hex(t) =~= bytes_hex(s) + byte_hex(b));
    }
}

/// Append one hexadecimal digit, `n` under sixteen, to `sql`.
fn push_hex_digit(sql: &mut String, n: u8)
    requires
        n < 16,
    ensures
        final(sql)@ == old(sql)@ + hex_digit(n as nat),
{
    if n == 0 {
        sql.append("0");
    } else if n == 1 {
        sql.append("1");
    } else if n == 2 {
        sql.append("2");
    } else if n == 3 {
        sql.append("3");
    } else if n == 4 {
        sql.append("4");
    } else if n == 5 {
        sql.append("5");
    } else if n == 6 {
        sql.append("6");
    } else if n == 7 {
        sql.append("7");
    } else if n == 8 {
        sql.append("8");
    } else if n == 9 {
        sql.append("9");
    } else if n == 10 {
        sql.append("a");
    } else if n == 11 {
        sql.append("b");
    } else if n == 12 {
        sql.append("c");
    } else if n == 13 {
        sql.append("d");
    } else if n == 14 {
        sql.append("e");
    } else {
        sql.append("f");
    }
}

/// Append the hexadecimal form of `bytes` to `sql`.
#[verifier::loop_isolation(false)]
pub(crate) fn push_hex(sql: &mut String, bytes: &Vec<u8>)
    ensures
        final(sql)@ == old(sql)@ + bytes_hex(bytes@),
{
    let n = bytes.len();
    let mut i: usize = 0;
    while i < n
        invariant
            i <= n,
            sql@ == old(sql)@ + bytes_hex(bytes@.subrange(0, i as int)),
        decreases n - i,
    {
        let b = bytes[i];
        push_hex_digit(sql, b / 16);
        push_hex_digit(sql, b % 16);
        proof {
            lemma_bytes_hex_snoc(bytes@.subrange(0, i as int), b);
            assert(bytes@.subrange(0, i + 1) =~= bytes@.subrange(0, i as int).push(b));
            assert(sql@ =~= old(sql)@ + bytes_hex(bytes@.subrange(0, i + 1)));
        }
        i = i + 1;
    }
    proof {
        assert(bytes@.subrange(0, n as int) =~= bytes@);
    }
}

/// The inline literal form of a value: `null` for typed nulls, `true` or
/// `false`, shortest decimal for integers, single-quoted text, and a hex
/// byte string.
pub open spec fn value_inline(v: Value) -> Seq<char> {
    match v {
        Value::Null(_) => "null"@,
        Value::Bool(b) => if b {
            "true"@
        } else {
            "false"@
        },
        Value::TinyInt(x) => dec_int(x as int),
        Value::SmallInt(x) => dec_int(x as int),
        Value::Int(x) => dec_int(x as int),
        Value::BigInt(x) => dec_int(x as int),
        Value::TinyUInt(x) => dec_nat(x as nat),
        Value::SmallUInt(x) => dec_nat(x as nat),
        Value::UInt(x) => dec_nat(x as nat),
        Value::BigUInt(x) => dec_nat(x as nat),
        Value::Text(s) => quoted(s@, '\''),
        Value::Bytes(b) => "b\""@ + bytes_hex(b@) + "\""@,
    }
}

/// What stands in the emitted text for the value with one-based ordinal
/// `ord`: its inline literal form, a numbered placeholder, or the repeated
/// placeholder token.
pub open spec fn value_sql(v: Value, d: Dialect, ord: nat) -> Seq<char> {
    match d.params {
        Params::Inline => value_inline(v),
        Params::Numbered => "$"@ + dec_nat(ord),
        Params::Question => "?"@,
    }
}

/// Append the rendering of `v` to `sql` and push `v` onto the argument
/// list: the text holds the literal or the placeholder whose ordinal is
/// the value's position in the list.
pub(crate) fn build_value(v: Value, d: &Dialect, sql: &mut String, args: &mut Vec<Value>)
    ensures
        final(sql)@ == old(sql)@ + value_sql(v, *d, old(args)@.len() + 1),
        final(args)@ == old(args)@.push(v),
{
    match d.params {
        Params::Inline => {
            match &v {
                Value::Null(_) => sql.append("null"),
                Value::Bool(b) => {
                    if *b {
                        sql.append("true");
                    } else {
                        sql.append("false");
                    }
                },
                Value::TinyInt(x) => push_int(sql, *x as i64),
                Value::SmallInt(x) => push_int(sql, *x as i64),
                Value::Int(x) => push_int(sql, *x as i64),
                Value::BigInt(x) => push_int(sql, *x),
                Value::TinyUInt(x) => push_dec(sql, *x as u64),
                Value::SmallUInt(x) => push_dec(sql, *x as u64),
                Value::UInt(x) => push_dec(sql, *x as u64),
                Value::BigUInt(x) => push_dec(sql, *x),
                Value::Text(s) => push_quoted(sql, s.as_str(), '\''),
                Value::Bytes(b) => {
                    sql.append("b\"");
                    push_hex(sql, b);
                    sql.append("\"");
                },
            }
        },
        Params::Numbered => {
            args.push(v);
            sql.append("$");
            push_dec(sql, args.len() as u64);
            return ;
        },
        Params::Question => {
            sql.append("?");
        },
    }
    args.push(v);
}

/// None of the fixed SQL keywords and separators the renderer emits holds
/// a placeholder token.
#[verifier::rlimit(100)]
pub(crate) proof fn lemma_keyword_counts()
    ensures
        crate::utils::count_char("SELECT "@, '?') == 0,
        crate::utils::count_char("FROM "@, '?') == 0,
        crate::utils::count_char("WHERE "@, '?') == 0,
        crate::utils::count_char("GROUP BY "@, '?') == 0,
        crate::utils::count_char("HAVING "@, '?') == 0,
        crate::utils::count_char("ORDER BY "@, '?') == 0,
        crate::utils::count_char("INSERT INTO "@, '?') == 0,
        crate::utils::count_char("VALUES "@, '?') == 0,
        crate::utils::count_char("RETURNING "@, '?') == 0,
        crate::utils::count_char("DELETE FROM "@, '?') == 0,
        crate::utils::count_char("UPDATE "@, '?') == 0,
        crate::utils::count_char("SET "@, '?') == 0,
        crate::utils::count_char("WITH "@, '?') == 0,
        crate::utils::count_char("WITH RECURSIVE "@, '?') == 0,
        crate::utils::count_char("LIMIT "@, '?') == 0,
        crate::utils::count_char("OFFSET "@, '?') == 0,
        crate::utils::count_char(" AS "@, '?') == 0,
        crate::utils::count_char(" AS ("@, '?') == 0,
        crate::utils::count_char(" ON "@, '?') == 0,
        crate::utils::count_char(" = "@, '?') == 0,
        crate::utils::count_char(" JOIN "@, '?') == 0,
        crate::utils::count_char(" LEFT JOIN "@, '?') == 0,
        crate::utils::count_char(" RIGHT JOIN "@, '?') == 0,
        crate::utils::count_char(" FULL JOIN "@, '?') == 0,
        crate::utils::count_char(" NATURAL JOIN "@, '?') == 0,
        crate::utils::count_char(" NATURAL LEFT JOIN "@, '?') == 0,
        crate::utils::count_char(" NATURAL RIGHT JOIN "@, '?') == 0,
        crate::utils::count_char(" NATURAL FULL JOIN "@, '?') == 0,
        crate::utils::count_char(" CROSS JOIN "@, '?') == 0,
        crate::utils::count_char("ASC"@, '?') == 0,
        crate::utils::count_char("DESC"@, '?') == 0,
{
    reveal_strlit("SELECT ");
    crate::utils::lemma_count_char_none("SELECT "@, '?');
    reveal_strlit("FROM ");
    crate::utils::lemma_count_char_none("FROM "@, '?');
    reveal_strlit("WHERE ");
    crate::utils::lemma_count_char_none("WHERE "@, '?');
    reveal_strlit("GROUP BY ");
    crate::utils::lemma_count_char_none("GROUP BY "@, '?');
    reveal_strlit("HAVING ");
    crate::utils::lemma_count_char_none("HAVING "@, '?');
    reveal_strlit("ORDER BY ");
    crate::utils::lemma_count_char_none("ORDER BY "@, '?');
    reveal_strlit("INSERT INTO ");
    crate::utils::lemma_count_char_none("INSERT INTO "@, '?');
    reveal_strlit("VALUES ");
    crate::utils::lemma_count_char_none("VALUES "@, '?');
    reveal_strlit("RETURNING ");
    crate::utils::lemma_count_char_none("RETURNING "@, '?');
    reveal_strlit("DELETE FROM ");
    crate::utils::lemma_count_char_none("DELETE FROM "@, '?');
    reveal_strlit("UPDATE ");
    crate::utils::lemma_count_char_none("UPDATE "@, '?');
    reveal_strlit("SET ");
    crate::utils::lemma_count_char_none("SET "@, '?');
    reveal_strlit("WITH ");
    crate::utils::lemma_count_char_none("WITH "@, '?');
    reveal_strlit("WITH RECURSIVE ");
    crate::utils::lemma_count_char_none("WITH RECURSIVE "@, '?');
    reveal_strlit("LIMIT ");
    crate::utils::lemma_count_char_none("LIMIT "@, '?');
    reveal_strlit("OFFSET ");
    crate::utils::lemma_count_char_none("OFFSET "@, '?');
    reveal_strlit(" AS ");
    crate::utils::lemma_count_char_none(" AS "@, '?');
    reveal_strlit(" AS (");
    crate::utils::lemma_count_char_none(" AS ("@, '?');
    reveal_strlit(" ON ");
    crate::utils::lemma_count_char_none(" ON "@, '?');
    reveal_strlit(" = ");
    crate::utils::lemma_count_char_none(" = "@, '?');
    reveal_strlit(" JOIN ");
    crate::utils::lemma_count_char_none(" JOIN "@, '?');
    reveal_strlit(" LEFT JOIN ");
    crate::utils::lemma_count_char_none(" LEFT JOIN "@, '?');
    reveal_strlit(" RIGHT JOIN ");
    crate::utils::lemma_count_char_none(" RIGHT JOIN "@, '?');
    reveal_strlit(" FULL JOIN ");
    crate::utils::lemma_count_char_none(" FULL JOIN "@, '?');
    reveal_strlit(" NATURAL JOIN ");
    crate::utils::lemma_count_char_none(" NATURAL JOIN "@, '?');
    reveal_strlit(" NATURAL LEFT JOIN ");
    crate::utils::lemma_count_char_none(" NATURAL LEFT JOIN "@, '?');
    reveal_strlit(" NATURAL RIGHT JOIN ");
    crate::utils::lemma_count_char_none(" NATURAL RIGHT JOIN "@, '?');
    reveal_strlit(" NATURAL FULL JOIN ");
    crate::utils::lemma_count_char_none(" NATURAL FULL JOIN "@, '?');
    reveal_strlit(" CROSS JOIN ");
    crate::utils::lemma_count_char_none(" CROSS JOIN "@, '?');
    reveal_strlit("ASC");
    crate::utils::lemma_count_char_none("ASC"@, '?');
    reveal_strlit("DESC");
    crate::utils::lemma_count_char_none("DESC"@, '?');
}

} // verus!
