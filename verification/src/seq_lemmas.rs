//! Facts about filtered sequences.

use vstd::prelude::*;

verus! {

/// Filtering the first `n` items of a sequence gives the first items of the
/// filtered sequence.
pub proof fn lemma_filter_prefix<A>(q: Seq<A>, n: int, p: spec_fn(A) -> bool)
    requires
        0 <= n <= q.len(),
    ensures
        q.subrange(0, n).filter(p).len() <= q.filter(p).len(),
        forall|i: int|
            0 <= i < q.subrange(0, n).filter(p).len() ==> q.subrange(0, n).filter(p)[i]
                == q.filter(p)[i],
{
    let a = q.subrange(0, n);
    let b = q.subrange(n, q.len() as int);
    assert(a + b =~= q);
    Seq::filter_distributes_over_add(a, b, p);
}

/// A sequence none of whose items passes a filter is filtered to nothing.
pub proof fn lemma_filter_none<A>(q: Seq<A>, p: spec_fn(A) -> bool)
    requires
        forall|j: int| 0 <= j < q.len() ==> !p(#[trigger] q[j]),
    ensures
        q.filter(p).len() == 0,
{
    if q.filter(p).len() > 0 {
        let x = q.filter(p)[0];
        q.lemma_filter_pred(p, 0);
        assert(p(x));
        assert(q.filter(p).contains(x));
        q.lemma_filter_contains_rev(p, x);
        let j = choose|j: int| 0 <= j < q.len() && q[j] == x;
        assert(!p(q[j]));
    }
}

/// The first item that passes a filter is the first item of the filtered
/// sequence.
pub proof fn lemma_filter_first<A>(q: Seq<A>, p: spec_fn(A) -> bool, k: int)
    requires
        0 <= k < q.len(),
        p(q[k]),
        forall|j: int| 0 <= j < k ==> !p(#[trigger] q[j]),
    ensures
        q.filter(p).len() > 0,
        q.filter(p)[0] == q[k],
{
    let a = q.subrange(0, k);
    let b = q.subrange(k, q.len() as int);
    assert(a + b =~= q);
    Seq::filter_distributes_over_add(a, b, p);
    lemma_filter_none(a, p);
    let rest = b.subrange(1, b.len() as int);
    assert(seq![q[k]] + rest =~= b);
    rest.lemma_filter_prepend(q[k], p);
}

/// The last item that passes a filter is the last item of the filtered
/// sequence.
pub proof fn lemma_filter_last<A>(q: Seq<A>, p: spec_fn(A) -> bool, k: int)
    requires
        0 <= k < q.len(),
        p(q[k]),
        forall|j: int| k < j < q.len() ==> !p(#[trigger] q[j]),
    ensures
        q.filter(p).len() > 0,
        q.filter(p).last() == q[k],
{
    let a = q.subrange(0, k + 1);
    let b = q.subrange(k + 1, q.len() as int);
    assert(a + b =~= q);
    Seq::filter_distributes_over_add(a, b, p);
    lemma_filter_none(b, p);
    let front = a.subrange(0, k);
    assert(front.push(q[k]) =~= a);
    front.lemma_filter_push(q[k], p);
    assert(a.filter(p) + b.filter(p) =~= a.filter(p));
}

/// Filtering twice by one test is filtering once.
pub proof fn lemma_filter_idempotent<A>(q: Seq<A>, p: spec_fn(A) -> bool)
    ensures
        q.filter(p).filter(p) == q.filter(p),
    decreases q.len(),
{
    reveal(Seq::filter);
    if q.len() > 0 {
        let rest = q.drop_last();
        lemma_filter_idempotent(rest, p);
        assert(rest.push(q.last()) =~= q);
        rest.lemma_filter_push(q.last(), p);
        if p(q.last()) {
            rest.filter(p).lemma_filter_push(q.last(), p);
        }
    }
}

/// A filtered sequence keeps the order of its source: two items of it stand
/// in the source in the same order.
pub proof fn lemma_filter_embeds<A>(s: Seq<A>, p: spec_fn(A) -> bool, i: int, j: int)
    requires
        0 <= i < j < s.filter(p).len(),
    ensures
        exists|a: int, b: int|
            0 <= a < b < s.len() && s[a] == s.filter(p)[i] && s[b] == s.filter(p)[j],
    decreases s.len(),
{
    reveal(Seq::filter);
    if s.len() > 0 {
        let rest = s.drop_last();
        let f = rest.filter(p);
        if p(s.last()) && j == f.len() {
            rest.lemma_filter_contains_rev(p, f[i]);
            assert(f.contains(f[i]));
            let a = choose|a: int| 0 <= a < rest.len() && rest[a] == f[i];
            assert(s[a] == s.filter(p)[i] && s[s.len() - 1] == s.filter(p)[j]);
        } else {
            lemma_filter_embeds(rest, p, i, j);
            let (a, b) = choose|a: int, b: int|
                0 <= a < b < rest.len() && rest[a] == f[i] && rest[b] == f[j];
            assert(s[a] == s.filter(p)[i] && s[b] == s.filter(p)[j]);
        }
    }
}

/// Two items of a sequence that pass a filter stand in the filtered sequence
/// in the same order.
pub proof fn lemma_filter_keeps<A>(s: Seq<A>, p: spec_fn(A) -> bool, a: int, b: int)
    requires
        0 <= a < b < s.len(),
        p(s[a]),
        p(s[b]),
    ensures
        exists|i: int, j: int|
            0 <= i < j < s.filter(p).len() && s[a] == s.filter(p)[i] && s[b] == s.filter(p)[j],
    decreases s.len(),
{
    reveal(Seq::filter);
    let rest = s.drop_last();
    let f = rest.filter(p);
    if b == s.len() - 1 {
        rest.lemma_filter_contains(p, a);
        let i = choose|i: int| 0 <= i < f.len() && f[i] == rest[a];
        assert(s.filter(p)[i] == s[a] && s.filter(p)[f.len() as int] == s[b]);
    } else {
        lemma_filter_keeps(rest, p, a, b);
        let (i, j) = choose|i: int, j: int|
            0 <= i < j < f.len() && rest[a] == f[i] && rest[b] == f[j];
        assert(s.filter(p)[i] == s[a] && s.filter(p)[j] == s[b]);
    }
}

/// Filtering and reversing can be done in either order.
pub proof fn lemma_filter_reverse<A>(s: Seq<A>, p: spec_fn(A) -> bool)
    ensures
        s.filter(p).reverse() == s.reverse().filter(p),
    decreases s.len(),
{
    reveal(Seq::filter);
    if s.len() == 0 {
        assert(s.filter(p).reverse() =~= s.reverse().filter(p));
    } else {
        let rest = s.drop_last();
        let x = s.last();
        lemma_filter_reverse(rest, p);
        assert(s.reverse() =~= seq![x] + rest.reverse());
        rest.reverse().lemma_filter_prepend(x, p);
        if p(x) {
            assert(rest.filter(p).push(x).reverse() =~= seq![x] + rest.filter(p).reverse());
        }
        assert(s.filter(p).reverse() =~= s.reverse().filter(p));
    }
}

/// Two filters can be applied in either order.
pub proof fn lemma_filter_commutes<A>(s: Seq<A>, p: spec_fn(A) -> bool, r: spec_fn(A) -> bool)
    ensures
        s.filter(p).filter(r) == s.filter(r).filter(p),
    decreases s.len(),
{
    reveal(Seq::filter);
    if s.len() > 0 {
        let rest = s.drop_last();
        let x = s.last();
        lemma_filter_commutes(rest, p, r);
        if p(x) {
            rest.filter(p).lemma_filter_push(x, r);
        }
        if r(x) {
            rest.filter(r).lemma_filter_push(x, p);
        }
    }
}

} // verus!
