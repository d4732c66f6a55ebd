//! Sums over sequences and finite maps.
use vstd::prelude::*;

verus! {

/// The sum of `f` over the elements of a sequence.
pub open spec fn seq_sum<A>(s: Seq<A>, f: spec_fn(A) -> nat) -> nat
    decreases s.len(),
{
    if s.len() == 0 {
        0
    } else {
        seq_sum(s.drop_last(), f) + f(s.last())
    }
}

/// The sum of `f` over the values of a finite map.
pub open spec fn map_sum<K, V>(m: Map<K, V>, f: spec_fn(V) -> nat) -> nat
    decreases m.dom().len(),
{
    if m.dom().finite() && m.dom().len() > 0 {
        let k = m.dom().choose();
        f(m[k]) + map_sum(m.remove(k), f)
    } else {
        0
    }
}

/// Extending a prefix by one element adds that element's share.
pub proof fn lemma_seq_sum_take<A>(s: Seq<A>, n: int, f: spec_fn(A) -> nat)
    requires
        0 <= n < s.len(),
    ensures
        seq_sum(s.take(n + 1), f) == seq_sum(s.take(n), f) + f(s[n]),
{
    assert(s.take(n + 1).drop_last() =~= s.take(n));
}

/// The sum over one element is its share.
pub proof fn lemma_seq_sum_single<A>(a: A, f: spec_fn(A) -> nat)
    ensures
        seq_sum(seq![a], f) == f(a),
{
    assert(seq![a].drop_last() =~= Seq::empty());
    assert(seq_sum(Seq::<A>::empty(), f) == 0);
}

/// A prefix sums to no more than the whole.
pub proof fn lemma_seq_sum_prefix<A>(s: Seq<A>, n: int, f: spec_fn(A) -> nat)
    requires
        0 <= n <= s.len(),
    ensures
        seq_sum(s.take(n), f) <= seq_sum(s, f),
    decreases s.len() - n,
{
    if n < s.len() {
        lemma_seq_sum_take(s, n, f);
        lemma_seq_sum_prefix(s, n + 1, f);
    } else {
        assert(s.take(n) =~= s);
    }
}

/// Each element's share is no more than the whole.
pub proof fn lemma_seq_sum_element<A>(s: Seq<A>, n: int, f: spec_fn(A) -> nat)
    requires
        0 <= n < s.len(),
    ensures
        f(s[n]) <= seq_sum(s, f),
{
    lemma_seq_sum_take(s, n, f);
    lemma_seq_sum_prefix(s, n + 1, f);
}

/// Replacing one element exchanges its share.
pub proof fn lemma_seq_sum_update<A>(s: Seq<A>, n: int, a: A, f: spec_fn(A) -> nat)
    requires
        0 <= n < s.len(),
    ensures
        seq_sum(s.update(n, a), f) + f(s[n]) == seq_sum(s, f) + f(a),
    decreases s.len(),
{
    if n == s.len() - 1 {
        assert(s.update(n, a).drop_last() =~= s.drop_last());
    } else {
        assert(s.update(n, a).drop_last() =~= s.drop_last().update(n, a));
        lemma_seq_sum_update(s.drop_last(), n, a, f);
    }
}

/// Two sequences whose elements have the same shares have the same sum.
pub proof fn lemma_seq_sum_pointwise<A, B>(
    s: Seq<A>,
    f: spec_fn(A) -> nat,
    t: Seq<B>,
    g: spec_fn(B) -> nat,
)
    requires
        s.len() == t.len(),
        forall|i: int| 0 <= i < s.len() ==> f(#[trigger] s[i]) == g(t[i]),
    ensures
        seq_sum(s, f) == seq_sum(t, g),
    decreases s.len(),
{
    if s.len() > 0 {
        assert forall|i: int| 0 <= i < s.drop_last().len() implies f(#[trigger] s.drop_last()[i])
            == g(t.drop_last()[i]) by {
            assert(f(s[i]) == g(t[i]));
        }
        lemma_seq_sum_pointwise(s.drop_last(), f, t.drop_last(), g);
        assert(f(s[s.len() - 1]) == g(t[s.len() - 1]));
    }
}

/// Where each share is no more than another, so is the sum.
pub proof fn lemma_seq_sum_le<A>(s: Seq<A>, f: spec_fn(A) -> nat, g: spec_fn(A) -> nat)
    requires
        forall|a: A| #[trigger] f(a) <= g(a),
    ensures
        seq_sum(s, f) <= seq_sum(s, g),
    decreases s.len(),
{
    if s.len() > 0 {
        lemma_seq_sum_le(s.drop_last(), f, g);
        assert(f(s.last()) <= g(s.last()));
    }
}

/// Where each share is nothing, so is the sum.
pub proof fn lemma_seq_sum_zero<A>(s: Seq<A>, f: spec_fn(A) -> nat)
    requires
        forall|i: int| 0 <= i < s.len() ==> f(#[trigger] s[i]) == 0,
    ensures
        seq_sum(s, f) == 0,
    decreases s.len(),
{
    if s.len() > 0 {
        assert forall|i: int| 0 <= i < s.drop_last().len() implies f(#[trigger] s.drop_last()[i])
            == 0 by {
            assert(f(s[i]) == 0);
        }
        lemma_seq_sum_zero(s.drop_last(), f);
        assert(f(s[s.len() - 1]) == 0);
    }
}

/// Where only one element has a share, it is the sum.
pub proof fn lemma_seq_sum_only<A>(s: Seq<A>, n: int, f: spec_fn(A) -> nat)
    requires
        0 <= n < s.len(),
        forall|i: int| 0 <= i < s.len() && i != n ==> f(#[trigger] s[i]) == 0,
    ensures
        seq_sum(s, f) == f(s[n]),
    decreases s.len(),
{
    assert forall|i: int| 0 <= i < s.drop_last().len() && i != n implies f(
        #[trigger] s.drop_last()[i],
    ) == 0 by {
        assert(f(s[i]) == 0);
    }
    if n == s.len() - 1 {
        lemma_seq_sum_zero(s.drop_last(), f);
    } else {
        lemma_seq_sum_only(s.drop_last(), n, f);
        assert(f(s[s.len() - 1]) == 0);
    }
}

/// A map's sum is the share of any one of its keys and the sum of the rest.
pub proof fn lemma_map_sum_remove<K, V>(m: Map<K, V>, k: K, f: spec_fn(V) -> nat)
    requires
        m.dom().finite(),
        m.contains_key(k),
    ensures
        map_sum(m, f) == f(m[k]) + map_sum(m.remove(k), f),
    decreases m.dom().len(),
{
    let c = m.dom().choose();
    if c != k {
        lemma_map_sum_remove(m.remove(c), k, f);
        lemma_map_sum_remove(m.remove(k), c, f);
        assert(m.remove(c).remove(k) =~= m.remove(k).remove(c));
    }
}

/// Setting a key exchanges its old share, or nothing, for the new one.
pub proof fn lemma_map_sum_insert<K, V>(m: Map<K, V>, k: K, v: V, f: spec_fn(V) -> nat)
    requires
        m.dom().finite(),
    ensures
        m.insert(k, v).dom().finite(),
        m.contains_key(k) ==> map_sum(m.insert(k, v), f) + f(m[k]) == map_sum(m, f) + f(v),
        !m.contains_key(k) ==> map_sum(m.insert(k, v), f) == map_sum(m, f) + f(v),
{
    lemma_map_sum_remove(m.insert(k, v), k, f);
    if m.contains_key(k) {
        lemma_map_sum_remove(m, k, f);
        assert(m.insert(k, v).remove(k) =~= m.remove(k));
    } else {
        assert(m.insert(k, v).remove(k) =~= m);
    }
}

/// Each value's share is no more than the whole.
pub proof fn lemma_map_sum_value<K, V>(m: Map<K, V>, k: K, f: spec_fn(V) -> nat)
    requires
        m.dom().finite(),
        m.contains_key(k),
    ensures
        f(m[k]) <= map_sum(m, f),
{
    lemma_map_sum_remove(m, k, f);
}

/// Where one share is the sum of two others on every value, so is the sum.
pub proof fn lemma_map_sum_add<K, V>(
    m: Map<K, V>,
    f: spec_fn(V) -> nat,
    g: spec_fn(V) -> nat,
    h: spec_fn(V) -> nat,
)
    requires
        m.dom().finite(),
        forall|k: K| #[trigger] m.contains_key(k) ==> h(m[k]) == f(m[k]) + g(m[k]),
    ensures
        map_sum(m, h) == map_sum(m, f) + map_sum(m, g),
    decreases m.dom().len(),
{
    if m.dom().len() > 0 {
        let k = m.dom().choose();
        assert(m.contains_key(k));
        assert forall|j: K| #[trigger] m.remove(k).contains_key(j) implies h(m.remove(k)[j]) == f(
            m.remove(k)[j],
        ) + g(m.remove(k)[j]) by {
            assert(m.contains_key(j));
        }
        lemma_map_sum_add(m.remove(k), f, g, h);
    }
}

/// Where each share is no more than another, so is the sum.
pub proof fn lemma_map_sum_le<K, V>(m: Map<K, V>, f: spec_fn(V) -> nat, g: spec_fn(V) -> nat)
    requires
        m.dom().finite(),
        forall|k: K| #[trigger] m.contains_key(k) ==> f(m[k]) <= g(m[k]),
    ensures
        map_sum(m, f) <= map_sum(m, g),
    decreases m.dom().len(),
{
    if m.dom().len() > 0 {
        let k = m.dom().choose();
        assert(m.contains_key(k));
        assert forall|j: K| #[trigger] m.remove(k).contains_key(j) implies f(m.remove(k)[j]) <= g(
            m.remove(k)[j],
        ) by {
            assert(m.contains_key(j));
        }
        lemma_map_sum_le(m.remove(k), f, g);
    }
}

/// Where the share of each key in one map is no more than its share in another, which
/// is nothing for a key that the other lacks, so is the sum.
pub proof fn lemma_map_sum_covered<K, V>(m: Map<K, V>, n: Map<K, V>, f: spec_fn(V) -> nat)
    requires
        m.dom().finite(),
        n.dom().finite(),
        forall|k: K| #[trigger]
            m.contains_key(k) ==> f(m[k]) <= (if n.contains_key(k) {
                f(n[k])
            } else {
                0
            }),
    ensures
        map_sum(m, f) <= map_sum(n, f),
    decreases m.dom().len(),
{
    if m.dom().len() > 0 {
        let k = m.dom().choose();
        assert(m.contains_key(k));
        let rest = if n.contains_key(k) {
            n.remove(k)
        } else {
            n
        };
        assert forall|j: K| #[trigger] m.remove(k).contains_key(j) implies f(m.remove(k)[j]) <= (
        if rest.contains_key(j) {
            f(rest[j])
        } else {
            0
        }) by {
            assert(m.contains_key(j));
        }
        lemma_map_sum_covered(m.remove(k), rest, f);
        if n.contains_key(k) {
            lemma_map_sum_remove(n, k, f);
        }
    }
}

/// Where each share is nothing, so is the sum.
pub proof fn lemma_map_sum_zero<K, V>(m: Map<K, V>, f: spec_fn(V) -> nat)
    requires
        m.dom().finite(),
        forall|k: K| #[trigger] m.contains_key(k) ==> f(m[k]) == 0,
    ensures
        map_sum(m, f) == 0,
    decreases m.dom().len(),
{
    if m.dom().len() > 0 {
        let k = m.dom().choose();
        assert(m.contains_key(k));
        assert forall|j: K| #[trigger] m.remove(k).contains_key(j) implies f(m.remove(k)[j])
            == 0 by {
            assert(m.contains_key(j));
        }
        lemma_map_sum_zero(m.remove(k), f);
    }
}

} // verus!
