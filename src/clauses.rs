//! Reading a locator text back into clauses: splitting at the commas that
//! stand outside all parentheses, and the facts that make that splitting
//! undo the joining of clauses.
use vstd::prelude::*;

use crate::text::joined;

verus! {

/// How a character changes the parenthesis depth.
pub open spec fn paren_delta(c: char) -> int {
    if c == '(' {
        1
    } else if c == ')' {
        -1
    } else {
        0
    }
}

/// The parenthesis depth at the end of `s`: opened minus closed.
pub open spec fn depth(s: Seq<char>) -> int
    decreases s.len(),
{
    if s.len() == 0 {
        0
    } else {
        depth(s.drop_last()) + paren_delta(s.last())
    }
}

/// The clauses of `s[0..end]`, looking leftwards from `j` for commas at
/// depth zero.
pub open spec fn split_upto(s: Seq<char>, j: int, end: int) -> Seq<Seq<char>>
    decreases j,
{
    if j <= 0 {
        seq![s.subrange(0, end)]
    } else if s[j - 1] == ',' && depth(s.subrange(0, j - 1)) == 0 {
        split_upto(s, j - 1, j - 1).push(s.subrange(j, end))
    } else {
        split_upto(s, j - 1, end)
    }
}

/// The clauses of a locator text: the pieces between the commas that stand
/// outside all parentheses.
pub open spec fn split_clauses(s: Seq<char>) -> Seq<Seq<char>> {
    split_upto(s, s.len() as int, s.len() as int)
}

/// The key of a clause: what stands before its first `:`.
pub open spec fn clause_key(c: Seq<char>) -> Seq<char>
    decreases c.len(),
{
    if c.len() == 0 {
        c
    } else if c[0] == ':' {
        Seq::empty()
    } else {
        seq![c[0]] + clause_key(c.drop_first())
    }
}

/// A clause that survives splitting whole: balanced, and each of its commas
/// inside parentheses.
pub open spec fn clean(p: Seq<char>) -> bool {
    &&& depth(p) == 0
    &&& forall|k: int| 0 <= k < p.len() && p[k] == ',' ==> depth(#[trigger] p.subrange(0, k)) != 0
}

/// No comma and no parenthesis.
pub open spec fn plain(s: Seq<char>) -> bool {
    forall|i: int| 0 <= i < s.len() ==> s[i] != ',' && s[i] != '(' && s[i] != ')'
}

/// Balanced, and never closing more than was opened.
pub open spec fn nested(s: Seq<char>) -> bool {
    &&& depth(s) == 0
    &&& forall|k: int| 0 <= k <= s.len() ==> depth(#[trigger] s.subrange(0, k)) >= 0
}

pub proof fn lemma_depth_one(c: char)
    ensures
        depth(seq![c]) == paren_delta(c),
{
    assert(seq![c].drop_last() =~= Seq::<char>::empty());
    assert(depth(Seq::<char>::empty()) == 0);
    assert(seq![c].last() == c);
}

pub proof fn lemma_depth_concat(a: Seq<char>, b: Seq<char>)
    ensures
        depth(a + b) == depth(a) + depth(b),
    decreases b.len(),
{
    if b.len() == 0 {
        assert(a + b =~= a);
    } else {
        lemma_depth_concat(a, b.drop_last());
        assert((a + b).drop_last() =~= a + b.drop_last());
    }
}

pub proof fn lemma_plain_depth(s: Seq<char>)
    requires
        plain(s),
    ensures
        depth(s) == 0,
    decreases s.len(),
{
    if s.len() > 0 {
        lemma_plain_depth(s.drop_last());
    }
}

pub proof fn lemma_plain_concat(a: Seq<char>, b: Seq<char>)
    requires
        plain(a),
        plain(b),
    ensures
        plain(a + b),
{
    assert forall|i: int| 0 <= i < (a + b).len() implies (a + b)[i] != ',' && (a + b)[i] != '('
        && (a + b)[i] != ')' by {
        if i < a.len() {
            assert((a + b)[i] == a[i]);
        } else {
            assert((a + b)[i] == b[i - a.len()]);
        }
    }
}

pub proof fn lemma_plain_clean(s: Seq<char>)
    requires
        plain(s),
    ensures
        clean(s),
        nested(s),
{
    lemma_plain_depth(s);
    assert forall|k: int| 0 <= k <= s.len() implies depth(#[trigger] s.subrange(0, k)) >= 0 by {
        assert(plain(s.subrange(0, k)));
        lemma_plain_depth(s.subrange(0, k));
    }
}

/// A plain text, then a nested text in parentheses, survives splitting.
pub proof fn lemma_wrapped_clean(pre: Seq<char>, inner: Seq<char>)
    requires
        plain(pre),
        nested(inner),
    ensures
        clean(pre + seq!['('] + inner + seq![')']),
{
    let s = pre + seq!['('] + inner + seq![')'];
    lemma_plain_depth(pre);
    lemma_depth_concat(pre, seq!['(']);
    lemma_depth_one('(');
    lemma_depth_one(')');
    lemma_depth_concat(pre + seq!['('], inner);
    lemma_depth_concat(pre + seq!['('] + inner, seq![')']);
    assert forall|k: int| 0 <= k < s.len() && s[k] == ',' implies depth(
        #[trigger] s.subrange(0, k),
    ) != 0 by {
        if k < pre.len() {
            assert(s[k] == pre[k]);
        } else if k == pre.len() {
            assert(s[k] == '(');
        } else if k < pre.len() + 1 + inner.len() {
            let m = k - pre.len() - 1;
            assert(s.subrange(0, k) =~= (pre + seq!['(']) + inner.subrange(0, m));
            lemma_depth_concat(pre + seq!['('], inner.subrange(0, m));
            assert(depth(inner.subrange(0, m)) >= 0);
        } else {
            assert(s[k] == ')');
        }
    }
}

/// Balanced texts joined by commas are balanced.
pub proof fn lemma_joined_depth(parts: Seq<Seq<char>>)
    requires
        forall|i: int| 0 <= i < parts.len() ==> depth(#[trigger] parts[i]) == 0,
    ensures
        depth(joined(parts)) == 0,
    decreases parts.len(),
{
    if parts.len() > 1 {
        lemma_joined_depth(parts.drop_last());
        lemma_depth_concat(joined(parts.drop_last()), seq![',']);
        lemma_depth_one(',');
        lemma_depth_concat(joined(parts.drop_last()) + seq![','], parts.last());
    }
}

/// Nested texts joined by commas are nested.
pub proof fn lemma_joined_nested(parts: Seq<Seq<char>>)
    requires
        forall|i: int| 0 <= i < parts.len() ==> nested(#[trigger] parts[i]),
    ensures
        nested(joined(parts)),
    decreases parts.len(),
{
    if parts.len() == 0 {
        assert forall|k: int| 0 <= k <= 0 implies depth(
            #[trigger] Seq::<char>::empty().subrange(0, k),
        ) >= 0 by {
            assert(Seq::<char>::empty().subrange(0, k) =~= Seq::<char>::empty());
        }
    } else if parts.len() == 1 {
        assert(nested(parts[0]));
    } else {
        let a = joined(parts.drop_last());
        let b = parts.last();
        lemma_joined_nested(parts.drop_last());
        assert(nested(b));
        let ac = a + seq![','];
        lemma_depth_concat(a, seq![',']);
        lemma_depth_one(',');
        lemma_depth_concat(ac, b);
        let s = joined(parts);
        assert(s == ac + b);
        assert forall|k: int| 0 <= k <= s.len() implies depth(#[trigger] s.subrange(0, k)) >= 0 by {
            if k <= a.len() {
                assert(s.subrange(0, k) =~= a.subrange(0, k));
            } else if k == a.len() + 1 {
                assert(s.subrange(0, k) =~= ac);
            } else {
                let m = k - a.len() - 1;
                assert(s.subrange(0, k) =~= ac + b.subrange(0, m));
                lemma_depth_concat(ac, b.subrange(0, m));
            }
        }
    }
}

/// Splitting looks only at the text before `end`.
proof fn lemma_split_prefix(s1: Seq<char>, s2: Seq<char>, j: int, end: int)
    requires
        0 <= j <= end <= s1.len(),
        end <= s2.len(),
        s1.subrange(0, end) == s2.subrange(0, end),
    ensures
        split_upto(s1, j, end) == split_upto(s2, j, end),
    decreases j,
{
    if j > 0 {
        assert(s1[j - 1] == s1.subrange(0, end)[j - 1]);
        assert(s2[j - 1] == s2.subrange(0, end)[j - 1]);
        assert(s1.subrange(0, j - 1) =~= s1.subrange(0, end).subrange(0, j - 1));
        assert(s2.subrange(0, j - 1) =~= s2.subrange(0, end).subrange(0, j - 1));
        assert(s1.subrange(j, end) =~= s1.subrange(0, end).subrange(j, end));
        assert(s2.subrange(j, end) =~= s2.subrange(0, end).subrange(j, end));
        if s1[j - 1] == ',' && depth(s1.subrange(0, j - 1)) == 0 {
            assert(s1.subrange(0, j - 1) =~= s1.subrange(0, end).subrange(0, j - 1));
            lemma_split_prefix(s1, s2, j - 1, j - 1);
        } else {
            lemma_split_prefix(s1, s2, j - 1, end);
        }
    }
}

/// Scanning leftwards through a clean clause that follows `a` and a comma
/// finds no split until that comma.
proof fn lemma_split_through(a: Seq<char>, p: Seq<char>, j: int)
    requires
        clean(p),
        depth(a) == 0,
        a.len() + 1 <= j <= a.len() + 1 + p.len(),
    ensures
        split_upto(a + seq![','] + p, j, (a.len() + 1 + p.len()) as int) == split_upto(
            a + seq![','] + p,
            (a.len() + 1) as int,
            (a.len() + 1 + p.len()) as int,
        ),
    decreases j,
{
    let s = a + seq![','] + p;
    if j > a.len() + 1 {
        let k = j - 1 - a.len() - 1;
        assert(s[j - 1] == p[k]);
        assert(s.subrange(0, j - 1) =~= (a + seq![',']) + p.subrange(0, k));
        lemma_depth_concat(a + seq![','], p.subrange(0, k));
        lemma_depth_concat(a, seq![',']);
        lemma_depth_one(',');
        if p[k] == ',' {
            assert(depth(p.subrange(0, k)) != 0);
        }
        lemma_split_through(a, p, j - 1);
    }
}

/// One clean clause splits into itself.
proof fn lemma_split_single(p: Seq<char>, j: int)
    requires
        clean(p),
        0 <= j <= p.len(),
    ensures
        split_upto(p, j, p.len() as int) == seq![p],
    decreases j,
{
    if j > 0 {
        if p[j - 1] == ',' {
            assert(depth(p.subrange(0, j - 1)) != 0);
        }
        lemma_split_single(p, j - 1);
    } else {
        assert(p.subrange(0, p.len() as int) =~= p);
    }
}

/// Splitting undoes joining: clean clauses joined by commas split back into
/// the same clauses, in order.
pub proof fn lemma_split_joined(parts: Seq<Seq<char>>)
    requires
        parts.len() > 0,
        forall|i: int| 0 <= i < parts.len() ==> clean(#[trigger] parts[i]),
    ensures
        split_clauses(joined(parts)) == parts,
    decreases parts.len(),
{
    if parts.len() == 1 {
        lemma_split_single(parts[0], parts[0].len() as int);
        assert(seq![parts[0]] =~= parts);
    } else {
        let init = parts.drop_last();
        let a = joined(init);
        let p = parts.last();
        let s = a + seq![','] + p;
        let n = (a.len() + 1 + p.len()) as int;
        let a1 = (a.len() + 1) as int;
        assert(s == joined(parts));
        assert forall|i: int| 0 <= i < init.len() implies depth(#[trigger] init[i]) == 0 by {
            assert(clean(parts[i]));
        }
        lemma_joined_depth(init);
        assert(clean(p));
        lemma_split_through(a, p, n);
        assert(s[a.len() as int] == ',');
        assert(s.subrange(0, a.len() as int) =~= a);
        assert(split_upto(s, a1, n) == split_upto(s, a.len() as int, a.len() as int).push(
            s.subrange(a1, n),
        ));
        assert(s.subrange(a1, n) =~= p);
        assert(a.subrange(0, a.len() as int) =~= a);
        lemma_split_prefix(s, a, a.len() as int, a.len() as int);
        assert forall|i: int| 0 <= i < init.len() implies clean(#[trigger] init[i]) by {
            assert(clean(parts[i]));
        }
        lemma_split_joined(init);
        assert(init.push(p) =~= parts);
    }
}

/// The key of `k` followed by `:` and anything is `k`, when `k` holds no
/// `:`.
pub proof fn lemma_clause_key(k: Seq<char>, rest: Seq<char>)
    requires
        forall|i: int| 0 <= i < k.len() ==> k[i] != ':',
    ensures
        clause_key(k + seq![':'] + rest) == k,
    decreases k.len(),
{
    let c = k + seq![':'] + rest;
    if k.len() == 0 {
        assert(c[0] == ':');
    } else {
        lemma_clause_key(k.drop_first(), rest);
        assert(c.drop_first() =~= k.drop_first() + seq![':'] + rest);
        assert(seq![k[0]] + k.drop_first() =~= k);
    }
}

/// A plain text, then a nested text in parentheses, is nested.
pub proof fn lemma_wrapped_nested(pre: Seq<char>, inner: Seq<char>)
    requires
        plain(pre),
        nested(inner),
    ensures
        nested(pre + seq!['('] + inner + seq![')']),
{
    let s = pre + seq!['('] + inner + seq![')'];
    let po = pre + seq!['('];
    lemma_plain_depth(pre);
    lemma_depth_one('(');
    lemma_depth_one(')');
    lemma_depth_concat(pre, seq!['(']);
    lemma_depth_concat(po, inner);
    lemma_depth_concat(po + inner, seq![')']);
    assert forall|k: int| 0 <= k <= s.len() implies depth(#[trigger] s.subrange(0, k)) >= 0 by {
        if k <= pre.len() {
            assert(s.subrange(0, k) =~= pre.subrange(0, k));
            assert(plain(pre.subrange(0, k)));
            lemma_plain_depth(pre.subrange(0, k));
        } else if k <= pre.len() + 1 + inner.len() {
            let m = k - pre.len() - 1;
            assert(s.subrange(0, k) =~= po + inner.subrange(0, m));
            lemma_depth_concat(po, inner.subrange(0, m));
        } else {
            assert(s.subrange(0, k) =~= s);
        }
    }
}

/// No `:`.
pub open spec fn no_colon(s: Seq<char>) -> bool {
    forall|i: int| 0 <= i < s.len() ==> s[i] != ':'
}

/// A key without `:`, a `:`, and a plain value: a clean clause with that
/// key.
pub proof fn lemma_plain_clause(key: Seq<char>, value: Seq<char>)
    requires
        plain(key),
        no_colon(key),
        plain(value),
    ensures
        clean(key + seq![':'] + value),
        clause_key(key + seq![':'] + value) == key,
{
    assert(plain(seq![':']));
    lemma_plain_concat(key, seq![':']);
    lemma_plain_concat(key + seq![':'], value);
    lemma_plain_clean(key + seq![':'] + value);
    lemma_clause_key(key, value);
}

/// A key without `:`, a `:`, and a nested text in parentheses: a clean
/// clause with that key.
pub proof fn lemma_wrapped_clause(key: Seq<char>, inner: Seq<char>)
    requires
        plain(key),
        no_colon(key),
        nested(inner),
    ensures
        clean(key + seq![':'] + (seq!['('] + inner + seq![')'])),
        clause_key(key + seq![':'] + (seq!['('] + inner + seq![')'])) == key,
{
    assert(plain(seq![':']));
    lemma_plain_concat(key, seq![':']);
    lemma_wrapped_clean(key + seq![':'], inner);
    assert(key + seq![':'] + (seq!['('] + inner + seq![')']) =~= key + seq![':'] + seq!['('] + inner
        + seq![')']);
    lemma_clause_key(key, seq!['('] + inner + seq![')']);
}

} // verus!
