//! Identifier and literal quoting, and the small string helpers the
//! renderer rests on.

use vstd::prelude::*;

verus! {

/// The number of occurrences of `c` in `s`.
pub open spec fn count_char(s: Seq<char>, c: char) -> nat
    decreases s.len(),
{
    if s.len() == 0 {
        0
    } else {
        (if s[0] == c {
            1nat
        } else {
            0nat
        }) + count_char(s.drop_first(), c)
    }
}

/// Character counts add up over concatenation.
pub proof fn lemma_count_char_add(a: Seq<char>, b: Seq<char>, c: char)
    ensures
        count_char(a + b, c) == count_char(a, c) + count_char(b, c),
    decreases a.len(),
{
    if a.len() == 0 {
        assert(a + b =~= b);
    } else {
        lemma_count_char_add(a.drop_first(), b, c);
        assert((a + b).drop_first() =~= a.drop_first() + b);
        assert((a + b)[0] == a[0]);
    }
}

pub(crate) proof fn lemma_count_char_one(x: char, c: char)
    ensures
        count_char(seq![x], c) == (if x == c {
            1nat
        } else {
            0nat
        }),
{
    assert(seq![x][0] == x);
    assert(seq![x].drop_first() =~= Seq::<char>::empty());
    assert(count_char(seq![x].drop_first(), c) == 0);
}

pub(crate) proof fn lemma_count_char_two(x: char, y: char, c: char)
    requires
        x != c,
        y != c,
    ensures
        count_char(seq![x, y], c) == 0,
{
    lemma_count_char_one(y, c);
    assert(seq![x, y][0] == x);
    assert(seq![x, y].drop_first() =~= seq![y]);
}

/// A sequence in which `c` nowhere occurs counts zero occurrences of it.
pub proof fn lemma_count_char_none(s: Seq<char>, c: char)
    requires
        forall|i: int| 0 <= i < s.len() ==> s[i] != c,
    ensures
        count_char(s, c) == 0,
    decreases s.len(),
{
    if s.len() > 0 {
        assert(forall|i: int|
            0 <= i < s.drop_first().len() ==> #[trigger] s.drop_first()[i] == s[i + 1]);
        lemma_count_char_none(s.drop_first(), c);
    }
}

/// Doubling a delimiter other than `c` introduces no occurrence of `c`.
proof fn lemma_doubled_count(s: Seq<char>, q: char, c: char)
    requires
        count_char(s, c) == 0,
        q != c,
    ensures
        count_char(doubled(s, q), c) == 0,
    decreases s.len(),
{
    if s.len() > 0 {
        lemma_doubled_count(s.drop_first(), q, c);
        if s[0] == q {
            lemma_count_char_add(seq![q, q], doubled(s.drop_first(), q), c);
            lemma_count_char_two(q, q, c);
        } else {
            lemma_count_char_add(seq![s[0]], doubled(s.drop_first(), q), c);
            lemma_count_char_one(s[0], c);
        }
    }
}

/// Quoting a name free of `c` with a delimiter other than `c` yields text
/// free of `c`.
pub proof fn lemma_quoted_count(s: Seq<char>, q: char, c: char)
    requires
        count_char(s, c) == 0,
        q != c,
    ensures
        count_char(quoted(s, q), c) == 0,
        count_char(pretty_quoted(s, q), c) == 0,
{
    lemma_doubled_count(s, q, c);
    lemma_count_char_add(seq![q], doubled(s, q), c);
    lemma_count_char_add(seq![q] + doubled(s, q), seq![q], c);
    lemma_count_char_one(q, c);
}

/// Whether `c` is an ASCII decimal digit.
pub open spec fn is_digit_char(c: char) -> bool {
    48 <= c as u32 && c as u32 <= 57
}

/// Whether `c` may open a bare identifier: an ASCII lowercase letter or an
/// underscore.
pub open spec fn is_bare_head_char(c: char) -> bool {
    (97 <= c as u32 && c as u32 <= 122) || c == '_'
}

/// Whether `c` may appear after the first character of a bare identifier:
/// an ASCII lowercase letter, a digit, or an underscore.
pub open spec fn is_bare_tail_char(c: char) -> bool {
    is_bare_head_char(c) || is_digit_char(c)
}

/// A name that needs no quoting in pretty rendering: a valid bare
/// identifier, every character lowercase, a digit or `_`, and the first
/// not a digit.
pub open spec fn is_bare_ident(s: Seq<char>) -> bool {
    s.len() > 0 && is_bare_head_char(s[0]) && forall|i: int|
        1 <= i < s.len() ==> is_bare_tail_char(#[trigger] s[i])
}

/// `s` with every occurrence of the delimiter `q` doubled.
pub open spec fn doubled(s: Seq<char>, q: char) -> Seq<char>
    decreases s.len(),
{
    if s.len() == 0 {
        Seq::empty()
    } else if s[0] == q {
        seq![q, q] + doubled(s.drop_first(), q)
    } else {
        seq![s[0]] + doubled(s.drop_first(), q)
    }
}

/// `s` wrapped in the delimiter `q`, with embedded delimiters doubled.
pub open spec fn quoted(s: Seq<char>, q: char) -> Seq<char> {
    seq![q] + doubled(s, q) + seq![q]
}

/// Pretty identifier quoting: a bare identifier is kept as it is, any other
/// name is quoted.
pub open spec fn pretty_quoted(s: Seq<char>, q: char) -> Seq<char> {
    if is_bare_ident(s) {
        s
    } else {
        quoted(s, q)
    }
}

/// The inverse of `doubled`: collapse each doubled delimiter back to one.
pub open spec fn undoubled(s: Seq<char>, q: char) -> Seq<char>
    decreases s.len(),
{
    if s.len() == 0 {
        Seq::empty()
    } else if s[0] == q && s.len() >= 2 && s[1] == q {
        seq![q] + undoubled(s.skip(2), q)
    } else {
        seq![s[0]] + undoubled(s.drop_first(), q)
    }
}

/// The inverse of `quoted`: strip the outer delimiters, then collapse the
/// doubled ones.
pub open spec fn unquoted(s: Seq<char>, q: char) -> Seq<char> {
    undoubled(s.subrange(1, s.len() - 1), q)
}

proof fn lemma_undoubled_doubled(s: Seq<char>, q: char)
    ensures
        undoubled(doubled(s, q), q) == s,
    decreases s.len(),
{
    if s.len() == 0 {
        assert(undoubled(doubled(s, q), q) =~= s);
    } else {
        lemma_undoubled_doubled(s.drop_first(), q);
        let d = doubled(s, q);
        if s[0] == q {
            assert(d == seq![q, q] + doubled(s.drop_first(), q));
            assert(d.skip(2) =~= doubled(s.drop_first(), q));
            assert(undoubled(d, q) =~= s);
        } else {
            assert(d == seq![s[0]] + doubled(s.drop_first(), q));
            if d[0] == q && d.len() >= 2 && d[1] == q {
                assert(false);
            }
            assert(d.drop_first() =~= doubled(s.drop_first(), q));
            assert(undoubled(d, q) =~= s);
        }
    }
}

/// Quoting round-trips: unquoting the quoted form of any name recovers the
/// name, whatever delimiters it contains.
pub proof fn lemma_quote_roundtrip(s: Seq<char>, q: char)
    ensures
        unquoted(quoted(s, q), q) == s,
{
    let t = quoted(s, q);
    assert(t.subrange(1, t.len() - 1) =~= doubled(s, q));
    lemma_undoubled_doubled(s, q);
}

proof fn lemma_doubled_snoc(s: Seq<char>, c: char, q: char)
    ensures
        doubled(s.push(c), q) == doubled(s, q) + (if c == q {
            seq![q, q]
        } else {
            seq![c]
        }),
    decreases s.len(),
{
    let tail: Seq<char> = if c == q {
        seq![q, q]
    } else {
        seq![c]
    };
    let t = s.push(c);
    assert(t.len() == s.len() + 1);
    if s.len() == 0 {
        assert(t[0] == c);
        assert(t.drop_first() =~= Seq::<char>::empty());
        assert(doubled(t.drop_first(), q) == Seq::<char>::empty());
        if c == q {
            assert(doubled(t, q) == seq![q, q] + doubled(t.drop_first(), q));
        } else {
            assert(doubled(t, q) == seq![t[0]] + doubled(t.drop_first(), q));
        }
        assert(doubled(t, q) =~= doubled(s, q) + tail);
    } else {
        lemma_doubled_snoc(s.drop_first(), c, q);
        assert(t[0] == s[0]);
        assert(t.drop_first() =~= s.drop_first().push(c));
        assert(doubled(t, q) =~= doubled(s, q) + tail);
    }
}

/// Relies on `String::push`: appends exactly the given character.
#[verifier::external_body]
pub(crate) fn push_char(s: &mut String, c: char)
    ensures
        final(s)@ == old(s)@.push(c),
{
    s.push(c);
}

/// Append `s` to `out` with every `q` doubled and the whole wrapped in `q`.
#[verifier::loop_isolation(false)]
pub(crate) fn push_quoted(out: &mut String, s: &str, q: char)
    ensures
        final(out)@ == old(out)@ + quoted(s@, q),
{
    push_char(out, q);
    let n = s.unicode_len();
    let mut i: usize = 0;
    while i < n
        invariant
            i <= n,
            out@ == old(out)@ + seq![q] + doubled(s@.subrange(0, i as int), q),
        decreases n - i,
    {
        let c = s.get_char(i);
        proof {
            lemma_doubled_snoc(s@.subrange(0, i as int), c, q);
            assert(s@.subrange(0, i + 1) =~= s@.subrange(0, i as int).push(c));
        }
        if c == q {
            push_char(out, q);
        }
        push_char(out, c);
        i = i + 1;
    }
    proof {
        assert(s@.subrange(0, n as int) =~= s@);
    }
    push_char(out, q);
    proof {
        assert(final(out)@ =~= old(out)@ + quoted(s@, q));
    }
}

/// Wrap `s` in the delimiter `q`, doubling any embedded delimiter.
pub fn quote(s: &str, q: char) -> (r: String)
    ensures
        r@ == quoted(s@, q),
{
    let mut out = String::new();
    push_quoted(&mut out, s, q);
    out
}

/// Whether `s` needs no quoting in pretty rendering.
#[verifier::loop_isolation(false)]
pub(crate) fn is_bare(s: &str) -> (r: bool)
    ensures
        r == is_bare_ident(s@),
{
    let n = s.unicode_len();
    if n == 0 {
        return false;
    }
    let first = s.get_char(0);
    let u = first as u32;
    if !((97 <= u && u <= 122) || first == '_') {
        return false;
    }
    let mut i: usize = 1;
    while i < n
        invariant
            1 <= i <= n,
            forall|j: int| 1 <= j < i ==> is_bare_tail_char(#[trigger] s@[j]),
        decreases n - i,
    {
        let c = s.get_char(i);
        let u = c as u32;
        if !((97 <= u && u <= 122) || (48 <= u && u <= 57) || c == '_') {
            return false;
        }
        i = i + 1;
    }
    true
}

/// Quote `s` with `q` unless it is already a bare identifier.  A bare
/// lowercase identifier is returned unchanged.
pub fn quote_pretty(s: &str, q: char) -> (r: String)
    ensures
        r@ == pretty_quoted(s@, q),
{
    if is_bare(s) {
        s.to_owned()
    } else {
        quote(s, q)
    }
}

/// Append `s` to `out` pretty-quoted.
pub(crate) fn push_pretty_quoted(out: &mut String, s: &str, q: char)
    ensures
        final(out)@ == old(out)@ + pretty_quoted(s@, q),
{
    if is_bare(s) {
        out.append(s);
    } else {
        push_quoted(out, s, q);
    }
}

/// The elements of `ss` joined with the separator `sep` between them.
pub open spec fn spec_joined(ss: Seq<String>, sep: Seq<char>) -> Seq<char>
    decreases ss.len(),
{
    if ss.len() == 0 {
        Seq::empty()
    } else if ss.len() == 1 {
        ss[0]@
    } else {
        ss[0]@ + sep + spec_joined(ss.drop_first(), sep)
    }
}

proof fn lemma_joined_snoc(ss: Seq<String>, x: String, sep: Seq<char>)
    ensures
        spec_joined(ss.push(x), sep) == if ss.len() == 0 {
            x@
        } else {
            spec_joined(ss, sep) + sep + x@
        },
    decreases ss.len(),
{
    if ss.len() == 0 {
        assert(spec_joined(ss.push(x), sep) =~= x@);
    } else {
        lemma_joined_snoc(ss.drop_first(), x, sep);
        assert(ss.push(x).drop_first() =~= ss.drop_first().push(x));
        if ss.len() == 1 {
            assert(ss.drop_first().len() == 0);
            assert(spec_joined(ss.push(x), sep) =~= spec_joined(ss, sep) + sep + x@);
        } else {
            assert(spec_joined(ss.push(x), sep) =~= spec_joined(ss, sep) + sep + x@);
        }
    }
}

/// Join the strings of `elems` with the separator `sep` between them.
#[verifier::loop_isolation(false)]
pub fn join(elems: &Vec<String>, sep: &str) -> (r: String)
    ensures
        r@ == spec_joined(elems@, sep@),
{
    let mut out = String::new();
    let n = elems.len();
    let mut i: usize = 0;
    while i < n
        invariant
            i <= n,
            out@ == spec_joined(elems@.subrange(0, i as int), sep@),
        decreases n - i,
    {
        if i > 0 {
            out.append(sep);
        }
        out.append(elems[i].as_str());
        proof {
            lemma_joined_snoc(elems@.subrange(0, i as int), elems@[i as int], sep@);
            assert(elems@.subrange(0, i + 1) =~= elems@.subrange(0, i as int).push(
                elems@[i as int],
            ));
        }
        i = i + 1;
    }
    proof {
        assert(elems@.subrange(0, n as int) =~= elems@);
    }
    out
}

} // verus!
