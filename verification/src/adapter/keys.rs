//! Keys of maps in rising order, as the object tracker reports changes key by key.
use vstd::prelude::*;
use std::collections::BTreeMap;
use vstd::std_specs::btree::spec_btree_map_iter;
use vstd::std_specs::iter::IteratorSpec;

verus! {

broadcast use vstd::std_specs::btree::group_btree_axioms;

/// Whether a sequence of 32-bit keys rises strictly.
pub open spec fn rising32(s: Seq<u32>) -> bool {
    forall|i: int, j: int| 0 <= i < j < s.len() ==> s[i] < s[j]
}

/// Whether a sequence of 64-bit keys rises strictly.
pub open spec fn rising64(s: Seq<u64>) -> bool {
    forall|i: int, j: int| 0 <= i < j < s.len() ==> s[i] < s[j]
}

/// The members of a set of 32-bit keys in rising order.
pub open spec fn in_order32(d: Set<u32>) -> Seq<u32> {
    choose|s: Seq<u32>| rising32(s) && forall|k: u32| s.contains(k) <==> d.contains(k)
}

/// The members of a set of 64-bit keys in rising order.
pub open spec fn in_order64(d: Set<u64>) -> Seq<u64> {
    choose|s: Seq<u64>| rising64(s) && forall|k: u64| s.contains(k) <==> d.contains(k)
}

/// Two rising sequences with the same members are equal.
pub proof fn lemma_rising32_unique(a: Seq<u32>, b: Seq<u32>)
    requires
        rising32(a),
        rising32(b),
        forall|k: u32| a.contains(k) <==> b.contains(k),
    ensures
        a == b,
    decreases a.len(),
{
    if a.len() == 0 {
        if b.len() > 0 {
            assert(b.contains(b[0]));
        }
        assert(a =~= b);
    } else {
        assert(a.contains(a[0]));
        let j = choose|j: int| 0 <= j < b.len() && b[j] == a[0];
        assert(b.contains(b[0]));
        let i = choose|i: int| 0 <= i < a.len() && a[i] == b[0];
        assert(a[0] == b[0]) by {
            if i > 0 {
                assert(a[0] < a[i]);
            }
            if j > 0 {
                assert(b[0] < b[j]);
            }
        }
        let a1 = a.drop_first();
        let b1 = b.drop_first();
        assert forall|k: u32| a1.contains(k) <==> b1.contains(k) by {
            if a1.contains(k) {
                let p = choose|p: int| 0 <= p < a1.len() && a1[p] == k;
                assert(a[p + 1] == k);
                assert(b.contains(k));
                let q = choose|q: int| 0 <= q < b.len() && b[q] == k;
                assert(a[0] < a[p + 1]);
                assert(q != 0);
                assert(b1[q - 1] == k);
            }
            if b1.contains(k) {
                let p = choose|p: int| 0 <= p < b1.len() && b1[p] == k;
                assert(b[p + 1] == k);
                assert(a.contains(k));
                let q = choose|q: int| 0 <= q < a.len() && a[q] == k;
                assert(b[0] < b[p + 1]);
                assert(q != 0);
                assert(a1[q - 1] == k);
            }
        }
        lemma_rising32_unique(a1, b1);
        assert forall|x: int| 0 <= x < a.len() implies a[x] == b[x] by {
            if x > 0 {
                assert(a[x] == a1[x - 1]);
                assert(b[x] == b1[x - 1]);
            }
        }
        assert(a =~= b);
    }
}

/// Two rising sequences with the same members are equal.
pub proof fn lemma_rising64_unique(a: Seq<u64>, b: Seq<u64>)
    requires
        rising64(a),
        rising64(b),
        forall|k: u64| a.contains(k) <==> b.contains(k),
    ensures
        a == b,
    decreases a.len(),
{
    if a.len() == 0 {
        if b.len() > 0 {
            assert(b.contains(b[0]));
        }
        assert(a =~= b);
    } else {
        assert(a.contains(a[0]));
        let j = choose|j: int| 0 <= j < b.len() && b[j] == a[0];
        assert(b.contains(b[0]));
        let i = choose|i: int| 0 <= i < a.len() && a[i] == b[0];
        assert(a[0] == b[0]) by {
            if i > 0 {
                assert(a[0] < a[i]);
            }
            if j > 0 {
                assert(b[0] < b[j]);
            }
        }
        let a1 = a.drop_first();
        let b1 = b.drop_first();
        assert forall|k: u64| a1.contains(k) <==> b1.contains(k) by {
            if a1.contains(k) {
                let p = choose|p: int| 0 <= p < a1.len() && a1[p] == k;
                assert(a[p + 1] == k);
                assert(b.contains(k));
                let q = choose|q: int| 0 <= q < b.len() && b[q] == k;
                assert(a[0] < a[p + 1]);
                assert(q != 0);
                assert(b1[q - 1] == k);
            }
            if b1.contains(k) {
                let p = choose|p: int| 0 <= p < b1.len() && b1[p] == k;
                assert(b[p + 1] == k);
                assert(a.contains(k));
                let q = choose|q: int| 0 <= q < a.len() && a[q] == k;
                assert(b[0] < b[p + 1]);
                assert(q != 0);
                assert(a1[q - 1] == k);
            }
        }
        lemma_rising64_unique(a1, b1);
        assert forall|x: int| 0 <= x < a.len() implies a[x] == b[x] by {
            if x > 0 {
                assert(a[x] == a1[x - 1]);
                assert(b[x] == b1[x - 1]);
            }
        }
        assert(a =~= b);
    }
}

/// A rising sequence with the members of a set is that set in rising order.
pub proof fn lemma_in_order32(s: Seq<u32>, d: Set<u32>)
    requires
        rising32(s),
        forall|k: u32| s.contains(k) <==> d.contains(k),
    ensures
        s == in_order32(d),
{
    let t = in_order32(d);
    assert(rising32(t) && forall|k: u32| t.contains(k) <==> d.contains(k));
    lemma_rising32_unique(s, t);
}

/// A rising sequence with the members of a set is that set in rising order.
pub proof fn lemma_in_order64(s: Seq<u64>, d: Set<u64>)
    requires
        rising64(s),
        forall|k: u64| s.contains(k) <==> d.contains(k),
    ensures
        s == in_order64(d),
{
    let t = in_order64(d);
    assert(rising64(t) && forall|k: u64| t.contains(k) <==> d.contains(k));
    lemma_rising64_unique(s, t);
}

/// Add a key to a rising list of keys, where it is not there yet.
#[verifier::spinoff_prover]
fn insert_rising32(out: &mut Vec<u32>, k: u32)
    requires
        rising32(old(out)@),
    ensures
        rising32(final(out)@),
        forall|x: u32| final(out)@.contains(x) <==> (old(out)@.contains(x) || x == k),
{
    let mut p: usize = 0;
    while p < out.len() && out[p] < k
        invariant
            p <= out@.len(),
            out@ == old(out)@,
            forall|q: int| 0 <= q < p ==> out@[q] < k,
        decreases out@.len() - p,
    {
        p = p + 1;
    }
    if p < out.len() && out[p] == k {
        assert(out@[p as int] == k);
        return;
    }
    let ghost before = out@;
    out.insert(p, k);
    proof {
        assert(out@ == before.insert(p as int, k));
        assert forall|i: int, j: int| 0 <= i < j < out@.len() implies out@[i] < out@[j] by {
            if j < p {
            } else if j == p {
            } else if i < p {
                assert(before[j - 1] > k || before[j - 1] >= before[p as int]);
            } else if i == p {
                assert(before[p as int] > k);
                assert(before[p as int] <= before[j - 1]);
            } else {
            }
        }
        assert forall|x: u32| out@.contains(x) <==> (before.contains(x) || x == k) by {
            if out@.contains(x) {
                let i = choose|i: int| 0 <= i < out@.len() && out@[i] == x;
                if i < p {
                    assert(before[i] == x);
                } else if i > p {
                    assert(before[i - 1] == x);
                }
            }
            if before.contains(x) {
                let i = choose|i: int| 0 <= i < before.len() && before[i] == x;
                if i < p {
                    assert(out@[i] == x);
                } else {
                    assert(out@[i + 1] == x);
                }
            }
            if x == k {
                assert(out@[p as int] == k);
            }
        }
    }
}

/// Add a key to a rising list of keys, where it is not there yet.
#[verifier::spinoff_prover]
fn insert_rising64(out: &mut Vec<u64>, k: u64)
    requires
        rising64(old(out)@),
    ensures
        rising64(final(out)@),
        forall|x: u64| final(out)@.contains(x) <==> (old(out)@.contains(x) || x == k),
{
    let mut p: usize = 0;
    while p < out.len() && out[p] < k
        invariant
            p <= out@.len(),
            out@ == old(out)@,
            forall|q: int| 0 <= q < p ==> out@[q] < k,
        decreases out@.len() - p,
    {
        p = p + 1;
    }
    if p < out.len() && out[p] == k {
        assert(out@[p as int] == k);
        return;
    }
    let ghost before = out@;
    out.insert(p, k);
    proof {
        assert(out@ == before.insert(p as int, k));
        assert forall|i: int, j: int| 0 <= i < j < out@.len() implies out@[i] < out@[j] by {
            if j < p {
            } else if j == p {
            } else if i < p {
                assert(before[j - 1] > k || before[j - 1] >= before[p as int]);
            } else if i == p {
                assert(before[p as int] > k);
                assert(before[p as int] <= before[j - 1]);
            } else {
            }
        }
        assert forall|x: u64| out@.contains(x) <==> (before.contains(x) || x == k) by {
            if out@.contains(x) {
                let i = choose|i: int| 0 <= i < out@.len() && out@[i] == x;
                if i < p {
                    assert(before[i] == x);
                } else if i > p {
                    assert(before[i - 1] == x);
                }
            }
            if before.contains(x) {
                let i = choose|i: int| 0 <= i < before.len() && before[i] == x;
                if i < p {
                    assert(out@[i] == x);
                } else {
                    assert(out@[i + 1] == x);
                }
            }
            if x == k {
                assert(out@[p as int] == k);
            }
        }
    }
}

/// Add the keys of a map to a rising list of keys.
pub fn add_keys32<V>(out: &mut Vec<u32>, m: &BTreeMap<u32, V>)
    requires
        rising32(old(out)@),
    ensures
        rising32(final(out)@),
        forall|x: u32| final(out)@.contains(x) <==> (old(out)@.contains(x) || m@.contains_key(x)),
{
    let ghost start = out@;
    let ghost s = spec_btree_map_iter(m).remaining();
    let ghost mut ks: Seq<u32> = Seq::empty();
    for pair in it: m.iter()
        invariant
            s == spec_btree_map_iter(m).remaining(),
            it.seq() == s,
            ks.len() == it.index(),
            forall|i: int| 0 <= i < ks.len() ==> ks[i] == *(#[trigger] s[i]).0,
            rising32(out@),
            forall|i: int| 0 <= i < s.len() ==> m@.contains_key(*(#[trigger] s[i]).0),
            forall|k: u32| m@.contains_key(k) ==> s.contains((&k, &m@[k])),
            forall|x: u32| out@.contains(x) <==> (start.contains(x) || ks.contains(x)),
    {
        let (key, _value) = pair;
        proof {
            assert(s[ks.len() as int] == pair);
        }
        let ghost before = ks;
        insert_rising32(out, *key);
        proof {
            ks = ks.push(*key);
            assert forall|x: u32| ks.contains(x) <==> (before.contains(x) || x == *key) by {
                if x == *key {
                    assert(ks[before.len() as int] == x);
                }
                if before.contains(x) {
                    let i = choose|i: int| 0 <= i < before.len() && before[i] == x;
                    assert(ks[i] == x);
                }
                if ks.contains(x) {
                    let i = choose|i: int| 0 <= i < ks.len() && ks[i] == x;
                    if i < before.len() {
                        assert(before[i] == x);
                    }
                }
            }
        }
    }
    proof {
        assert forall|x: u32| ks.contains(x) <==> m@.contains_key(x) by {
            if m@.contains_key(x) {
                assert(s.contains((&x, &m@[x])));
                let i = choose|i: int| 0 <= i < s.len() && s[i] == (&x, &m@[x]);
                assert(ks[i] == x);
            }
            if ks.contains(x) {
                let i = choose|i: int| 0 <= i < ks.len() && ks[i] == x;
                assert(m@.contains_key(*s[i].0));
            }
        }
    }
}

/// Add the keys of a map to a rising list of keys.
pub fn add_keys64<V>(out: &mut Vec<u64>, m: &BTreeMap<u64, V>)
    requires
        rising64(old(out)@),
    ensures
        rising64(final(out)@),
        forall|x: u64| final(out)@.contains(x) <==> (old(out)@.contains(x) || m@.contains_key(x)),
{
    let ghost start = out@;
    let ghost s = spec_btree_map_iter(m).remaining();
    let ghost mut ks: Seq<u64> = Seq::empty();
    for pair in it: m.iter()
        invariant
            s == spec_btree_map_iter(m).remaining(),
            it.seq() == s,
            ks.len() == it.index(),
            forall|i: int| 0 <= i < ks.len() ==> ks[i] == *(#[trigger] s[i]).0,
            rising64(out@),
            forall|i: int| 0 <= i < s.len() ==> m@.contains_key(*(#[trigger] s[i]).0),
            forall|k: u64| m@.contains_key(k) ==> s.contains((&k, &m@[k])),
            forall|x: u64| out@.contains(x) <==> (start.contains(x) || ks.contains(x)),
    {
        let (key, _value) = pair;
        proof {
            assert(s[ks.len() as int] == pair);
        }
        let ghost before = ks;
        insert_rising64(out, *key);
        proof {
            ks = ks.push(*key);
            assert forall|x: u64| ks.contains(x) <==> (before.contains(x) || x == *key) by {
                if x == *key {
                    assert(ks[before.len() as int] == x);
                }
                if before.contains(x) {
                    let i = choose|i: int| 0 <= i < before.len() && before[i] == x;
                    assert(ks[i] == x);
                }
                if ks.contains(x) {
                    let i = choose|i: int| 0 <= i < ks.len() && ks[i] == x;
                    if i < before.len() {
                        assert(before[i] == x);
                    }
                }
            }
        }
    }
    proof {
        assert forall|x: u64| ks.contains(x) <==> m@.contains_key(x) by {
            if m@.contains_key(x) {
                assert(s.contains((&x, &m@[x])));
                let i = choose|i: int| 0 <= i < s.len() && s[i] == (&x, &m@[x]);
                assert(ks[i] == x);
            }
            if ks.contains(x) {
                let i = choose|i: int| 0 <= i < ks.len() && ks[i] == x;
                assert(m@.contains_key(*s[i].0));
            }
        }
    }
}

/// A rising sequence of keys with one more key put in its place.
pub open spec fn place32(s: Seq<u32>, x: u32) -> Seq<u32>
    decreases s.len(),
{
    if s.len() == 0 {
        seq![x]
    } else if s.last() < x {
        s.push(x)
    } else {
        place32(s.drop_last(), x).push(s.last())
    }
}

/// Putting a new key in its place keeps the sequence rising and adds just that key.
proof fn lemma_place32(s: Seq<u32>, x: u32)
    requires
        rising32(s),
        !s.contains(x),
    ensures
        rising32(place32(s, x)),
        forall|k: u32| place32(s, x).contains(k) <==> (s.contains(k) || k == x),
    decreases s.len(),
{
    let r = place32(s, x);
    if s.len() == 0 {
        assert(r =~= seq![x]);
        assert forall|k: u32| r.contains(k) <==> (s.contains(k) || k == x) by {
            if r.contains(k) {
                let i = choose|i: int| 0 <= i < r.len() && r[i] == k;
            }
            if k == x {
                assert(r[0] == x);
            }
        }
    } else if s.last() < x {
        assert forall|i: int, j: int| 0 <= i < j < r.len() implies r[i] < r[j] by {
            if j == s.len() {
                assert(s[i] <= s.last());
            }
        }
        assert forall|k: u32| r.contains(k) <==> (s.contains(k) || k == x) by {
            if r.contains(k) {
                let i = choose|i: int| 0 <= i < r.len() && r[i] == k;
                if i < s.len() {
                    assert(s[i] == k);
                }
            }
            if s.contains(k) {
                let i = choose|i: int| 0 <= i < s.len() && s[i] == k;
                assert(r[i] == k);
            }
            if k == x {
                assert(r[s.len() as int] == x);
            }
        }
    } else {
        let s1 = s.drop_last();
        let last = s.last();
        assert(!s1.contains(x)) by {
            if s1.contains(x) {
                let i = choose|i: int| 0 <= i < s1.len() && s1[i] == x;
                assert(s[i] == x);
            }
        }
        assert(rising32(s1));
        lemma_place32(s1, x);
        let p = place32(s1, x);
        assert(x != last) by {
            assert(s[s.len() - 1] == last);
        }
        assert forall|k: u32| p.contains(k) implies k < last by {
            if s1.contains(k) {
                let i = choose|i: int| 0 <= i < s1.len() && s1[i] == k;
                assert(s[i] == k);
                assert(s[i] < s[s.len() - 1]);
            }
        }
        assert(r == p.push(last));
        assert forall|i: int, j: int| 0 <= i < j < r.len() implies r[i] < r[j] by {
            if j == p.len() {
                assert(p.contains(p[i]));
            }
        }
        assert forall|k: u32| r.contains(k) <==> (s.contains(k) || k == x) by {
            if r.contains(k) {
                let i = choose|i: int| 0 <= i < r.len() && r[i] == k;
                if i < p.len() {
                    assert(r[i] == p[i]);
                    assert(0 <= i < p.len() && p[i] == k);
                    assert(p.contains(k));
                    if s1.contains(k) {
                        let j = choose|j: int| 0 <= j < s1.len() && s1[j] == k;
                        assert(s[j] == k);
                    }
                } else {
                    assert(s[s.len() - 1] == k);
                }
            }
            if s.contains(k) {
                let i = choose|i: int| 0 <= i < s.len() && s[i] == k;
                if i < s.len() - 1 {
                    assert(s1[i] == k);
                    assert(s1.contains(k));
                    assert(p.contains(k));
                    let j = choose|j: int| 0 <= j < p.len() && p[j] == k;
                    assert(r[j] == k);
                } else {
                    assert(r[p.len() as int] == k);
                }
            }
            if k == x {
                assert(p.contains(x));
                let j = choose|j: int| 0 <= j < p.len() && p[j] == x;
                assert(r[j] == x);
            }
        }
    }
}

/// A finite set of keys has a rising enumeration, which is the set in rising order.
pub proof fn lemma_in_order32_exists(d: Set<u32>)
    requires
        d.finite(),
    ensures
        rising32(in_order32(d)),
        forall|k: u32| in_order32(d).contains(k) <==> d.contains(k),
    decreases d.len(),
{
    if d.len() == 0 {
        assert(d =~= Set::empty());
        let s = Seq::<u32>::empty();
        assert(rising32(s) && forall|k: u32| s.contains(k) <==> d.contains(k));
    } else {
        let x = d.choose();
        let d1 = d.remove(x);
        lemma_in_order32_exists(d1);
        let s1 = in_order32(d1);
        lemma_place32(s1, x);
        let s = place32(s1, x);
        assert(rising32(s) && forall|k: u32| s.contains(k) <==> d.contains(k));
    }
}

/// A rising sequence of keys with one more key put in its place.
pub open spec fn place64(s: Seq<u64>, x: u64) -> Seq<u64>
    decreases s.len(),
{
    if s.len() == 0 {
        seq![x]
    } else if s.last() < x {
        s.push(x)
    } else {
        place64(s.drop_last(), x).push(s.last())
    }
}

/// Putting a new key in its place keeps the sequence rising and adds just that key.
proof fn lemma_place64(s: Seq<u64>, x: u64)
    requires
        rising64(s),
        !s.contains(x),
    ensures
        rising64(place64(s, x)),
        forall|k: u64| place64(s, x).contains(k) <==> (s.contains(k) || k == x),
    decreases s.len(),
{
    let r = place64(s, x);
    if s.len() == 0 {
        assert(r =~= seq![x]);
        assert forall|k: u64| r.contains(k) <==> (s.contains(k) || k == x) by {
            if r.contains(k) {
                let i = choose|i: int| 0 <= i < r.len() && r[i] == k;
            }
            if k == x {
                assert(r[0] == x);
            }
        }
    } else if s.last() < x {
        assert forall|i: int, j: int| 0 <= i < j < r.len() implies r[i] < r[j] by {
            if j == s.len() {
                assert(s[i] <= s.last());
            }
        }
        assert forall|k: u64| r.contains(k) <==> (s.contains(k) || k == x) by {
            if r.contains(k) {
                let i = choose|i: int| 0 <= i < r.len() && r[i] == k;
                if i < s.len() {
                    assert(s[i] == k);
                }
            }
            if s.contains(k) {
                let i = choose|i: int| 0 <= i < s.len() && s[i] == k;
                assert(r[i] == k);
            }
            if k == x {
                assert(r[s.len() as int] == x);
            }
        }
    } else {
        let s1 = s.drop_last();
        let last = s.last();
        assert(!s1.contains(x)) by {
            if s1.contains(x) {
                let i = choose|i: int| 0 <= i < s1.len() && s1[i] == x;
                assert(s[i] == x);
            }
        }
        assert(rising64(s1));
        lemma_place64(s1, x);
        let p = place64(s1, x);
        assert(x != last) by {
            assert(s[s.len() - 1] == last);
        }
        assert forall|k: u64| p.contains(k) implies k < last by {
            if s1.contains(k) {
                let i = choose|i: int| 0 <= i < s1.len() && s1[i] == k;
                assert(s[i] == k);
                assert(s[i] < s[s.len() - 1]);
            }
        }
        assert(r == p.push(last));
        assert forall|i: int, j: int| 0 <= i < j < r.len() implies r[i] < r[j] by {
            if j == p.len() {
                assert(p.contains(p[i]));
            }
        }
        assert forall|k: u64| r.contains(k) <==> (s.contains(k) || k == x) by {
            if r.contains(k) {
                let i = choose|i: int| 0 <= i < r.len() && r[i] == k;
                if i < p.len() {
                    assert(r[i] == p[i]);
                    assert(0 <= i < p.len() && p[i] == k);
                    assert(p.contains(k));
                    if s1.contains(k) {
                        let j = choose|j: int| 0 <= j < s1.len() && s1[j] == k;
                        assert(s[j] == k);
                    }
                } else {
                    assert(s[s.len() - 1] == k);
                }
            }
            if s.contains(k) {
                let i = choose|i: int| 0 <= i < s.len() && s[i] == k;
                if i < s.len() - 1 {
                    assert(s1[i] == k);
                    assert(s1.contains(k));
                    assert(p.contains(k));
                    let j = choose|j: int| 0 <= j < p.len() && p[j] == k;
                    assert(r[j] == k);
                } else {
                    assert(r[p.len() as int] == k);
                }
            }
            if k == x {
                assert(p.contains(x));
                let j = choose|j: int| 0 <= j < p.len() && p[j] == x;
                assert(r[j] == x);
            }
        }
    }
}

/// A finite set of keys has a rising enumeration, which is the set in rising order.
pub proof fn lemma_in_order64_exists(d: Set<u64>)
    requires
        d.finite(),
    ensures
        rising64(in_order64(d)),
        forall|k: u64| in_order64(d).contains(k) <==> d.contains(k),
    decreases d.len(),
{
    if d.len() == 0 {
        assert(d =~= Set::empty());
        let s = Seq::<u64>::empty();
        assert(rising64(s) && forall|k: u64| s.contains(k) <==> d.contains(k));
    } else {
        let x = d.choose();
        let d1 = d.remove(x);
        lemma_in_order64_exists(d1);
        let s1 = in_order64(d1);
        lemma_place64(s1, x);
        let s = place64(s1, x);
        assert(rising64(s) && forall|k: u64| s.contains(k) <==> d.contains(k));
    }
}

} // verus!
