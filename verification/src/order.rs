use vstd::prelude::*;
use crate::text::views;

verus! {

/// Lexicographic order on character sequences by code point. On strings it
/// is the order of `String`'s `Ord`, since UTF-8 keeps code point order.
pub open spec fn seq_lt(a: Seq<char>, b: Seq<char>) -> bool
    decreases a.len(),
{
    if a.len() == 0 {
        b.len() > 0
    } else if b.len() == 0 {
        false
    } else if a[0] != b[0] {
        a[0] < b[0]
    } else {
        seq_lt(a.drop_first(), b.drop_first())
    }
}

pub proof fn lemma_lt_irreflexive(a: Seq<char>)
    ensures
        !seq_lt(a, a),
    decreases a.len(),
{
    if a.len() > 0 {
        lemma_lt_irreflexive(a.drop_first());
    }
}

pub proof fn lemma_lt_transitive(a: Seq<char>, b: Seq<char>, c: Seq<char>)
    requires
        seq_lt(a, b),
        seq_lt(b, c),
    ensures
        seq_lt(a, c),
    decreases a.len(),
{
    if a.len() > 0 && b.len() > 0 && c.len() > 0 {
        if a[0] == b[0] && b[0] == c[0] {
            lemma_lt_transitive(a.drop_first(), b.drop_first(), c.drop_first());
        }
    }
}

pub proof fn lemma_lt_total(a: Seq<char>, b: Seq<char>)
    ensures
        a == b || seq_lt(a, b) || seq_lt(b, a),
    decreases a.len(),
{
    if a.len() > 0 && b.len() > 0 {
        if a[0] == b[0] {
            lemma_lt_total(a.drop_first(), b.drop_first());
            if a.drop_first() == b.drop_first() {
                assert(a == seq![a[0]] + a.drop_first());
                assert(b == seq![b[0]] + b.drop_first());
            }
        }
    } else if a.len() == 0 && b.len() == 0 {
        assert(a == b);
    }
}

pub proof fn lemma_lt_asymmetric(a: Seq<char>, b: Seq<char>)
    requires
        seq_lt(a, b),
    ensures
        !seq_lt(b, a),
{
    if seq_lt(b, a) {
        lemma_lt_transitive(a, b, a);
        lemma_lt_irreflexive(a);
    }
}

/// Whether `a` comes strictly before `b`.
pub fn less_than(a: &Vec<char>, b: &Vec<char>) -> (r: bool)
    ensures
        r == seq_lt(a@, b@),
{
    let mut i: usize = 0;
    assert(a@.skip(0) == a@);
    assert(b@.skip(0) == b@);
    while i < a.len() && i < b.len() && a[i] == b[i]
        invariant
            i <= a.len(),
            i <= b.len(),
            seq_lt(a@, b@) == seq_lt(a@.skip(i as int), b@.skip(i as int)),
        decreases a.len() - i,
    {
        assert(a@.skip(i as int).drop_first() == a@.skip(i + 1));
        assert(b@.skip(i as int).drop_first() == b@.skip(i + 1));
        i = i + 1;
    }
    if i == a.len() {
        i < b.len()
    } else if i == b.len() {
        false
    } else {
        a[i] < b[i]
    }
}

pub proof fn lemma_push_to_set(s: Seq<Seq<char>>, x: Seq<char>)
    ensures
        s.push(x).to_set() == s.to_set().insert(x),
{
    assert forall|y: Seq<char>| s.push(x).to_set().contains(y) <==> s.to_set().insert(x).contains(
        y,
    ) by {
        if s.push(x).contains(y) {
            let i = choose|i: int| 0 <= i < s.push(x).len() && s.push(x)[i] == y;
            if i < s.len() {
                assert(s[i] == y);
            }
        }
        if s.contains(y) {
            let i = choose|i: int| 0 <= i < s.len() && s[i] == y;
            assert(s.push(x)[i] == y);
        }
        if y == x {
            assert(s.push(x)[s.len() as int] == y);
        }
    }
    assert(s.push(x).to_set() =~= s.to_set().insert(x));
}

/// Strictly increasing: sorted with no repeats.
pub open spec fn strictly_sorted(s: Seq<Seq<char>>) -> bool {
    forall|i: int, j: int| 0 <= i < j < s.len() ==> seq_lt(s[i], s[j])
}

/// The strictly increasing sequence holding the items of `s`.
pub open spec fn sorted_unique(s: Seq<Seq<char>>) -> Seq<Seq<char>> {
    choose|r: Seq<Seq<char>>| strictly_sorted(r) && r.to_set() == s.to_set()
}

/// A strictly increasing sequence is determined by the set of its items.
pub proof fn lemma_sorted_unique(a: Seq<Seq<char>>, b: Seq<Seq<char>>)
    requires
        strictly_sorted(a),
        strictly_sorted(b),
        a.to_set() == b.to_set(),
    ensures
        a == b,
    decreases a.len(),
{
    if a.len() == 0 {
        if b.len() > 0 {
            assert(b.to_set().contains(b[0]));
        }
        assert(a == b);
    } else if b.len() == 0 {
        assert(a.to_set().contains(a[0]));
    } else {
        assert(b.to_set().contains(a[0]));
        assert(a.to_set().contains(b[0]));
        let i = choose|i: int| 0 <= i < b.len() && b[i] == a[0];
        let j = choose|j: int| 0 <= j < a.len() && a[j] == b[0];
        if a[0] != b[0] {
            assert(i > 0 && j > 0);
            assert(seq_lt(b[0], b[i]));
            assert(seq_lt(a[0], a[j]));
            lemma_lt_asymmetric(a[0], b[0]);
        }
        let a1 = a.drop_first();
        let b1 = b.drop_first();
        assert forall|y: Seq<char>| a1.to_set().contains(y) <==> b1.to_set().contains(y) by {
            if a1.to_set().contains(y) {
                let k = choose|k: int| 0 <= k < a1.len() && a1[k] == y;
                assert(a[k + 1] == y);
                assert(seq_lt(a[0], a[k + 1]));
                lemma_lt_irreflexive(y);
                assert(b.to_set().contains(y));
                let m = choose|m: int| 0 <= m < b.len() && b[m] == y;
                assert(m != 0);
                assert(b1[m - 1] == y);
            }
            if b1.to_set().contains(y) {
                let k = choose|k: int| 0 <= k < b1.len() && b1[k] == y;
                assert(b[k + 1] == y);
                assert(seq_lt(b[0], b[k + 1]));
                lemma_lt_irreflexive(y);
                assert(a.to_set().contains(y));
                let m = choose|m: int| 0 <= m < a.len() && a[m] == y;
                assert(m != 0);
                assert(a1[m - 1] == y);
            }
        }
        assert(a1.to_set() =~= b1.to_set());
        lemma_sorted_unique(a1, b1);
        assert(a == seq![a[0]] + a1);
        assert(b == seq![b[0]] + b1);
    }
}

/// `r` with `x` put in its place (and not repeated).
pub open spec fn insert_sorted(r: Seq<Seq<char>>, x: Seq<char>) -> Seq<Seq<char>>
    decreases r.len(),
{
    if r.len() == 0 {
        seq![x]
    } else if r[0] == x {
        r
    } else if seq_lt(x, r[0]) {
        seq![x] + r
    } else {
        seq![r[0]] + insert_sorted(r.drop_first(), x)
    }
}

proof fn lemma_insert_sorted(r: Seq<Seq<char>>, x: Seq<char>)
    requires
        strictly_sorted(r),
    ensures
        strictly_sorted(insert_sorted(r, x)),
        insert_sorted(r, x).to_set() == r.to_set().insert(x),
    decreases r.len(),
{
    let out = insert_sorted(r, x);
    if r.len() == 0 {
        assert(out.to_set() =~= r.to_set().insert(x)) by {
            assert(out[0] == x);
        }
    } else if r[0] == x {
        assert(r.to_set().contains(x));
        assert(out.to_set() =~= r.to_set().insert(x));
    } else if seq_lt(x, r[0]) {
        assert forall|i: int, j: int| 0 <= i < j < out.len() implies seq_lt(out[i], out[j]) by {
            if i == 0 {
                assert(out[j] == r[j - 1]);
                if j - 1 > 0 {
                    lemma_lt_transitive(x, r[0], r[j - 1]);
                }
            } else {
                assert(out[i] == r[i - 1] && out[j] == r[j - 1]);
            }
        }
        assert(out == seq![x] + r);
        assert(out.to_set() =~= r.to_set().insert(x)) by {
            assert forall|y: Seq<char>| out.contains(y) <==> r.to_set().insert(x).contains(y) by {
                if out.contains(y) {
                    let k = choose|k: int| 0 <= k < out.len() && out[k] == y;
                    if k > 0 {
                        assert(r[k - 1] == y);
                    }
                }
                if r.contains(y) {
                    let k = choose|k: int| 0 <= k < r.len() && r[k] == y;
                    assert(out[k + 1] == y);
                }
                if y == x {
                    assert(out[0] == y);
                }
            }
        }
    } else {
        lemma_lt_total(x, r[0]);
        let t = r.drop_first();
        assert forall|i: int, j: int| 0 <= i < j < t.len() implies seq_lt(t[i], t[j]) by {
            assert(t[i] == r[i + 1] && t[j] == r[j + 1]);
        }
        lemma_insert_sorted(t, x);
        let rest = insert_sorted(t, x);
        assert(out == seq![r[0]] + rest);
        assert forall|i: int, j: int| 0 <= i < j < out.len() implies seq_lt(out[i], out[j]) by {
            if i == 0 {
                assert(out[j] == rest[j - 1]);
                assert(rest.to_set().contains(rest[j - 1]));
                if rest[j - 1] != x {
                    assert(t.to_set().contains(rest[j - 1]));
                    let k = choose|k: int| 0 <= k < t.len() && t[k] == rest[j - 1];
                    assert(t[k] == r[k + 1]);
                }
            } else {
                assert(out[i] == rest[i - 1] && out[j] == rest[j - 1]);
            }
        }
        assert(out.to_set() =~= r.to_set().insert(x)) by {
            assert forall|y: Seq<char>| out.contains(y) <==> r.to_set().insert(x).contains(y) by {
                if out.contains(y) {
                    let k = choose|k: int| 0 <= k < out.len() && out[k] == y;
                    if k > 0 {
                        assert(rest[k - 1] == y);
                        assert(rest.to_set().contains(y));
                        if y != x {
                            assert(t.to_set().contains(y));
                            let m = choose|m: int| 0 <= m < t.len() && t[m] == y;
                            assert(r[m + 1] == y);
                        }
                    } else {
                        assert(r[0] == y);
                    }
                }
                if r.contains(y) {
                    let k = choose|k: int| 0 <= k < r.len() && r[k] == y;
                    if k == 0 {
                        assert(out[0] == y);
                    } else {
                        assert(t[k - 1] == y);
                        assert(t.to_set().contains(y));
                        assert(rest.to_set().contains(y));
                        let m = choose|m: int| 0 <= m < rest.len() && rest[m] == y;
                        assert(out[m + 1] == y);
                    }
                }
                if y == x {
                    assert(rest.to_set().contains(x));
                    let m = choose|m: int| 0 <= m < rest.len() && rest[m] == x;
                    assert(out[m + 1] == y);
                }
            }
        }
    }
}

/// Every sequence has a strictly increasing arrangement of its items, so
/// `sorted_unique` holds exactly the items of its argument.
pub proof fn lemma_sorted_unique_items(s: Seq<Seq<char>>)
    ensures
        strictly_sorted(sorted_unique(s)),
        sorted_unique(s).to_set() == s.to_set(),
    decreases s.len(),
{
    let w = sorted_witness(s);
    assert(strictly_sorted(w) && w.to_set() == s.to_set());
}

/// A strictly increasing arrangement of the items of `s`.
proof fn sorted_witness(s: Seq<Seq<char>>) -> (r: Seq<Seq<char>>)
    ensures
        strictly_sorted(r),
        r.to_set() == s.to_set(),
    decreases s.len(),
{
    if s.len() == 0 {
        let r = Seq::<Seq<char>>::empty();
        assert(r.to_set() =~= s.to_set());
        r
    } else {
        let p = sorted_witness(s.drop_last());
        lemma_insert_sorted(p, s.last());
        assert(s == s.drop_last().push(s.last()));
        lemma_push_to_set(s.drop_last(), s.last());
        insert_sorted(p, s.last())
    }
}

/// The items of `items`, sorted and without repeats: what `sort` followed by
/// `dedup` gives.
pub fn sort_dedup(items: Vec<Vec<char>>) -> (r: Vec<Vec<char>>)
    ensures
        strictly_sorted(views(r@)),
        views(r@).to_set() == views(items@).to_set(),
        views(r@) == sorted_unique(views(items@)),
{
    let mut r: Vec<Vec<char>> = Vec::new();
    let mut n: usize = 0;
    while n < items.len()
        invariant
            n <= items.len(),
            strictly_sorted(views(r@)),
            views(r@).to_set() == views(items@).take(n as int).to_set(),
        decreases items.len() - n,
    {
        let x = items[n].clone();
        let ghost old_r = views(r@);
        let ghost xv = x@;
        // position of the first element not below x
        let mut k: usize = 0;
        while k < r.len() && less_than(&r[k], &x)
            invariant
                k <= r.len(),
                views(r@) == old_r,
                x@ == xv,
                forall|j: int| 0 <= j < k ==> seq_lt(old_r[j], xv),
            decreases r.len() - k,
        {
            k = k + 1;
        }
        let present = k < r.len() && !less_than(&x, &r[k]);
        proof {
            assert(views(items@).take(n + 1) == views(items@).take(n as int).push(xv));
            lemma_push_to_set(views(items@).take(n as int), xv);
        }
        if present {
            proof {
                lemma_lt_total(old_r[k as int], xv);
                assert(old_r[k as int] == xv);
                assert(old_r.to_set().contains(xv));
                assert(old_r.to_set().insert(xv) == old_r.to_set());
            }
        } else {
            proof {
                assert forall|j: int| k <= j < old_r.len() implies seq_lt(xv, old_r[j]) by {
                    lemma_lt_total(old_r[k as int], xv);
                    if j > k {
                        lemma_lt_transitive(xv, old_r[k as int], old_r[j]);
                    }
                }
            }
            r.insert(k, x);
            proof {
                let nr = views(r@);
                assert(nr == old_r.insert(k as int, xv));
                assert forall|i: int, j: int| 0 <= i < j < nr.len() implies seq_lt(nr[i], nr[j]) by {
                    if j < k {
                    } else if j == k {
                    } else if i < k {
                        lemma_lt_transitive(old_r[i], xv, old_r[j - 1]);
                    } else if i == k {
                    } else {
                    }
                }
                assert(nr.to_set() == old_r.to_set().insert(xv)) by {
                    assert forall|y: Seq<char>| nr.to_set().contains(y) <==> old_r.to_set().insert(
                        xv,
                    ).contains(y) by {
                        if nr.to_set().contains(y) {
                            let i = choose|i: int| 0 <= i < nr.len() && nr[i] == y;
                            if i < k {
                                assert(old_r[i] == y);
                            } else if i > k {
                                assert(old_r[i - 1] == y);
                            }
                        }
                        if old_r.to_set().contains(y) {
                            let i = choose|i: int| 0 <= i < old_r.len() && old_r[i] == y;
                            if i < k {
                                assert(nr[i] == y);
                            } else {
                                assert(nr[i + 1] == y);
                            }
                        }
                        if y == xv {
                            assert(nr[k as int] == y);
                        }
                    }
                }
            }
        }
        n = n + 1;
    }
    assert(views(items@).take(items.len() as int) == views(items@));
    proof {
        let s = views(items@);
        let w = views(r@);
        assert(strictly_sorted(w) && w.to_set() == s.to_set());
        let c = sorted_unique(s);
        lemma_sorted_unique(w, c);
    }
    r
}

} // verus!
