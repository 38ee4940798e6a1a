//! Facts about sequences that the store and the configuration switch share:
//! finding the first item of a kind, and ordering by a key, largest first.
use vstd::prelude::*;

verus! {

// ---------------------------------------------------------------------------
// Ordering by a key, largest first
// ---------------------------------------------------------------------------

/// `order` with the index `i` put behind every index whose key is at least
/// that of `i`; `order` is taken to be ordered by key, largest first.
pub open spec fn spec_insert_index(order: Seq<int>, keys: Seq<i64>, i: int) -> Seq<int>
    decreases order.len(),
{
    if order.len() == 0 {
        seq![i]
    } else if keys[order[0]] >= keys[i] {
        seq![order[0]] + spec_insert_index(order.drop_first(), keys, i)
    } else {
        seq![i] + order
    }
}

/// The first `n` indices of `keys`, ordered by key, largest first; of two
/// equal keys the earlier index comes first.
pub open spec fn spec_order_prefix(keys: Seq<i64>, n: nat) -> Seq<int>
    decreases n,
{
    if n == 0 {
        Seq::empty()
    } else {
        spec_insert_index(spec_order_prefix(keys, (n - 1) as nat), keys, n - 1)
    }
}

/// The indices of `keys`, ordered by key, largest first.
pub open spec fn spec_order_desc(keys: Seq<i64>) -> Seq<int> {
    spec_order_prefix(keys, keys.len())
}

/// An order of the indices below `n`: each index once, none left out, by
/// key, largest first, and of two indices with one key the smaller first.
pub open spec fn is_order_desc(order: Seq<int>, keys: Seq<i64>, n: nat) -> bool {
    &&& order.len() == n
    &&& forall|a: int| 0 <= a < order.len() ==> 0 <= #[trigger] order[a] < n
    &&& forall|a: int, b: int| 0 <= a < b < order.len() ==> #[trigger] order[a] != #[trigger] order[b]
    &&& forall|v: int| 0 <= v < n ==> #[trigger] order.contains(v)
    &&& forall|a: int, b: int|
        0 <= a < b < order.len() ==> keys[#[trigger] order[a]] >= keys[#[trigger] order[b]]
    &&& forall|a: int, b: int|
        0 <= a < b < order.len() && keys[#[trigger] order[a]] == keys[#[trigger] order[b]]
            ==> order[a] < order[b]
}

/// Where `spec_insert_index` puts an index: before the first entry with a
/// smaller key.
pub proof fn lemma_insert_at(order: Seq<int>, keys: Seq<i64>, i: int, p: int)
    requires
        0 <= p <= order.len(),
        forall|a: int| 0 <= a < p ==> keys[#[trigger] order[a]] >= keys[i],
        p < order.len() ==> keys[order[p]] < keys[i],
    ensures
        spec_insert_index(order, keys, i) == order.take(p) + seq![i] + order.skip(p),
    decreases p,
{
    if order.len() > 0 && p > 0 {
        let rest = order.drop_first();
        lemma_insert_at(rest, keys, i, p - 1);
        assert(seq![order[0]] + (rest.take(p - 1) + seq![i] + rest.skip(p - 1)) =~= order.take(p)
            + seq![i] + order.skip(p));
    }
}

proof fn lemma_insert_keeps_order(order: Seq<int>, keys: Seq<i64>, n: nat)
    requires
        is_order_desc(order, keys, n),
        n < keys.len(),
    ensures
        is_order_desc(spec_insert_index(order, keys, n as int), keys, n + 1),
{
    let i = n as int;
    let p = lemma_insert_position(order, keys, i);
    lemma_insert_at(order, keys, i, p);
    let out = order.take(p) + seq![i] + order.skip(p);
    assert forall|v: int| 0 <= v < n + 1 implies #[trigger] out.contains(v) by {
        if v == i {
            assert(out[p] == v);
        } else {
            assert(order.contains(v));
            let w = choose|w: int| 0 <= w < order.len() && order[w] == v;
            if w < p {
                assert(out[w] == v);
            } else {
                assert(out[w + 1] == v);
            }
        }
    }
}

/// The place at which `spec_insert_index` puts an index.
proof fn lemma_insert_position(order: Seq<int>, keys: Seq<i64>, i: int) -> (p: int)
    ensures
        0 <= p <= order.len(),
        forall|a: int| 0 <= a < p ==> keys[#[trigger] order[a]] >= keys[i],
        p < order.len() ==> keys[order[p]] < keys[i],
    decreases order.len(),
{
    if order.len() == 0 {
        0
    } else if keys[order[0]] < keys[i] {
        0
    } else {
        let rest = order.drop_first();
        let q = lemma_insert_position(rest, keys, i);
        let p = q + 1;
        assert forall|a: int| 0 <= a < p implies keys[#[trigger] order[a]] >= keys[i] by {
            if a > 0 {
                assert(order[a] == rest[a - 1]);
            }
        }
        p
    }
}

/// `spec_order_prefix` names every index below `n` once, largest key first.
pub proof fn lemma_order_prefix(keys: Seq<i64>, n: nat)
    requires
        n <= keys.len(),
    ensures
        is_order_desc(spec_order_prefix(keys, n), keys, n),
    decreases n,
{
    if n > 0 {
        lemma_order_prefix(keys, (n - 1) as nat);
        lemma_insert_keeps_order(spec_order_prefix(keys, (n - 1) as nat), keys, (n - 1) as nat);
    }
}

/// The indices of `keys`, ordered by key, largest first.
pub fn order_desc(keys: &Vec<i64>) -> (r: Vec<usize>)
    ensures
        r@.len() == keys@.len(),
        r@.map_values(|i: usize| i as int) == spec_order_desc(keys@),
        forall|a: int| 0 <= a < r@.len() ==> #[trigger] r@[a] < keys@.len(),
{
    let mut out: Vec<usize> = Vec::new();
    let mut i: usize = 0;
    while i < keys.len()
        invariant
            i <= keys@.len(),
            out@.len() == i,
            out@.map_values(|i: usize| i as int) == spec_order_prefix(keys@, i as nat),
            forall|a: int| 0 <= a < out@.len() ==> #[trigger] out@[a] < i,
        decreases keys.len() - i,
    {
        let ghost order = out@.map_values(|i: usize| i as int);
        let mut p: usize = 0;
        while p < out.len() && keys[out[p]] >= keys[i]
            invariant
                p <= out@.len(),
                out@.len() == i,
                i < keys@.len(),
                order == out@.map_values(|i: usize| i as int),
                forall|a: int| 0 <= a < out@.len() ==> #[trigger] out@[a] < i,
                forall|a: int| 0 <= a < p ==> keys@[#[trigger] order[a]] >= keys@[i as int],
            decreases out.len() - p,
        {
            p = p + 1;
        }
        proof {
            lemma_insert_at(order, keys@, i as int, p as int);
        }
        out.insert(p, i);
        assert(out@.map_values(|i: usize| i as int) =~= order.take(p as int) + seq![i as int]
            + order.skip(p as int));
        i = i + 1;
    }
    out
}


/// The index of the first item that satisfies `p`.
pub open spec fn spec_first_index<A>(s: Seq<A>, p: spec_fn(A) -> bool) -> Option<int>
    decreases s.len(),
{
    if s.len() == 0 {
        None
    } else if p(s[0]) {
        Some(0)
    } else {
        match spec_first_index(s.drop_first(), p) {
            Some(i) => Some(i + 1),
            None => None,
        }
    }
}

/// The first item that satisfies `p`.
pub open spec fn spec_first<A>(s: Seq<A>, p: spec_fn(A) -> bool) -> Option<A> {
    match spec_first_index(s, p) {
        Some(i) => Some(s[i]),
        None => None,
    }
}

/// What `spec_first_index` finds satisfies `p` and nothing before it does;
/// where it finds nothing, nothing satisfies `p`.
pub proof fn lemma_first_index<A>(s: Seq<A>, p: spec_fn(A) -> bool)
    ensures
        match spec_first_index(s, p) {
            Some(i) => 0 <= i < s.len() && p(s[i]) && forall|j: int| 0 <= j < i ==> !p(#[trigger] s[j]),
            None => forall|j: int| 0 <= j < s.len() ==> !p(#[trigger] s[j]),
        },
    decreases s.len(),
{
    if s.len() > 0 && !p(s[0]) {
        let rest = s.drop_first();
        lemma_first_index(rest, p);
        match spec_first_index(rest, p) {
            Some(i) => {
                assert forall|j: int| 0 <= j < i + 1 implies !p(#[trigger] s[j]) by {
                    if j > 0 {
                        assert(rest[j - 1] == s[j]);
                    }
                }
            },
            None => {
                assert forall|j: int| 0 <= j < s.len() implies !p(#[trigger] s[j]) by {
                    if j > 0 {
                        assert(rest[j - 1] == s[j]);
                    }
                }
            },
        }
    }
}

/// The first item that satisfies `p` is where nothing before it does.
pub proof fn lemma_first_index_is<A>(s: Seq<A>, p: spec_fn(A) -> bool, i: int)
    requires
        0 <= i < s.len(),
        p(s[i]),
        forall|j: int| 0 <= j < i ==> !p(#[trigger] s[j]),
    ensures
        spec_first_index(s, p) == Some(i),
{
    lemma_first_index(s, p);
}

/// Nothing is found where nothing satisfies `p`.
pub proof fn lemma_first_index_none<A>(s: Seq<A>, p: spec_fn(A) -> bool)
    requires
        forall|j: int| 0 <= j < s.len() ==> !p(#[trigger] s[j]),
    ensures
        spec_first_index(s, p).is_none(),
{
    lemma_first_index(s, p);
}

} // verus!
