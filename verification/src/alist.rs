//! Association sequences with unique keys, and their reading as
//! mathematical maps.
//!
//! The graph stores its vertices and each vertex's edge tables as vectors
//! of entries.  Contracts speak about those tables as [`Map`]s; this module
//! defines that reading ([`assoc_map`]) and proves how the vector
//! operations the graph uses (push, update in place, remove at an index,
//! filter) act on it.

use vstd::prelude::*;

verus! {

/// The map read off an association sequence: a later entry with the same
/// key overrides an earlier one, so on sequences with [`unique_keys`] the
/// reading is exact.
///
/// `kf` projects an entry to its key, `vf` to its value.
pub open spec fn assoc_map<T, K, V>(s: Seq<T>, kf: spec_fn(T) -> K, vf: spec_fn(T) -> V) -> Map<
    K,
    V,
>
    decreases s.len(),
{
    if s.len() == 0 {
        Map::empty()
    } else {
        assoc_map(s.drop_last(), kf, vf).insert(kf(s.last()), vf(s.last()))
    }
}

/// No two entries of the sequence carry the same key.
pub open spec fn unique_keys<T, K>(s: Seq<T>, kf: spec_fn(T) -> K) -> bool {
    forall|i: int, j: int| 0 <= i < j < s.len() ==> #[trigger] kf(s[i]) != #[trigger] kf(s[j])
}

/// A shorter sequence keeps its keys unique.
pub proof fn lemma_unique_keys_drop_last<T, K>(s: Seq<T>, kf: spec_fn(T) -> K)
    requires
        unique_keys(s, kf),
        s.len() > 0,
    ensures
        unique_keys(s.drop_last(), kf),
{
    let sd = s.drop_last();
    assert forall|x: int, y: int| 0 <= x < y < sd.len() implies #[trigger] kf(sd[x])
        != #[trigger] kf(sd[y]) by {
        assert(kf(s[x]) != kf(s[y]));
    }
}

/// Appending an entry whose key is fresh keeps keys unique.
pub proof fn lemma_unique_keys_push<T, K>(s: Seq<T>, kf: spec_fn(T) -> K, t: T)
    requires
        unique_keys(s, kf),
        forall|i: int| 0 <= i < s.len() ==> #[trigger] kf(s[i]) != kf(t),
    ensures
        unique_keys(s.push(t), kf),
{
    let sp = s.push(t);
    assert forall|x: int, y: int| 0 <= x < y < sp.len() implies #[trigger] kf(sp[x])
        != #[trigger] kf(sp[y]) by {
        if y == s.len() {
            assert(kf(s[x]) != kf(t));
        } else {
            assert(kf(s[x]) != kf(s[y]));
        }
    }
}

/// A key is in the map exactly when some entry carries it.
pub proof fn lemma_assoc_map_contains_key<T, K, V>(
    s: Seq<T>,
    kf: spec_fn(T) -> K,
    vf: spec_fn(T) -> V,
    k: K,
)
    ensures
        assoc_map(s, kf, vf).contains_key(k) <==> exists|i: int|
            0 <= i < s.len() && #[trigger] kf(s[i]) == k,
    decreases s.len(),
{
    if s.len() > 0 {
        lemma_assoc_map_contains_key(s.drop_last(), kf, vf, k);
        if kf(s.last()) == k {
            assert(kf(s[s.len() - 1]) == k);
        } else if exists|i: int| 0 <= i < s.len() && #[trigger] kf(s[i]) == k {
            let i = choose|i: int| 0 <= i < s.len() && #[trigger] kf(s[i]) == k;
            assert(kf(s.drop_last()[i]) == k);
        }
    }
}

/// On unique keys, the map sends each entry's key to that entry's value.
pub proof fn lemma_assoc_map_get<T, K, V>(
    s: Seq<T>,
    kf: spec_fn(T) -> K,
    vf: spec_fn(T) -> V,
    i: int,
)
    requires
        unique_keys(s, kf),
        0 <= i < s.len(),
    ensures
        assoc_map(s, kf, vf).contains_key(kf(s[i])),
        assoc_map(s, kf, vf)[kf(s[i])] == vf(s[i]),
    decreases s.len(),
{
    if i == s.len() - 1 {
    } else {
        assert(kf(s[i]) != kf(s[s.len() - 1]));
        lemma_unique_keys_drop_last(s, kf);
        lemma_assoc_map_get(s.drop_last(), kf, vf, i);
    }
}

/// Appending a fresh entry inserts its key.
pub proof fn lemma_assoc_map_push<T, K, V>(
    s: Seq<T>,
    kf: spec_fn(T) -> K,
    vf: spec_fn(T) -> V,
    t: T,
)
    ensures
        assoc_map(s.push(t), kf, vf) == assoc_map(s, kf, vf).insert(kf(t), vf(t)),
{
    assert(s.push(t).drop_last() =~= s);
}

/// Overwriting the entry that carries a key updates that key alone.
pub proof fn lemma_assoc_map_update<T, K, V>(
    s: Seq<T>,
    kf: spec_fn(T) -> K,
    vf: spec_fn(T) -> V,
    i: int,
    t: T,
)
    requires
        unique_keys(s, kf),
        0 <= i < s.len(),
        kf(t) == kf(s[i]),
    ensures
        assoc_map(s.update(i, t), kf, vf) =~= assoc_map(s, kf, vf).insert(kf(t), vf(t)),
        unique_keys(s.update(i, t), kf),
    decreases s.len(),
{
    let su = s.update(i, t);
    assert forall|x: int, y: int| 0 <= x < y < su.len() implies #[trigger] kf(su[x])
        != #[trigger] kf(su[y]) by {
        assert(kf(s[x]) != kf(s[y]));
    }
    if i == s.len() - 1 {
        assert(su.drop_last() =~= s.drop_last());
    } else {
        assert(su.drop_last() =~= s.drop_last().update(i, t));
        assert(kf(s[i]) != kf(s[s.len() - 1]));
        lemma_unique_keys_drop_last(s, kf);
        lemma_assoc_map_update(s.drop_last(), kf, vf, i, t);
    }
}

/// Removing the entry that carries a key removes that key alone.
pub proof fn lemma_assoc_map_remove_at<T, K, V>(
    s: Seq<T>,
    kf: spec_fn(T) -> K,
    vf: spec_fn(T) -> V,
    i: int,
)
    requires
        unique_keys(s, kf),
        0 <= i < s.len(),
    ensures
        assoc_map(s.remove(i), kf, vf) =~= assoc_map(s, kf, vf).remove(kf(s[i])),
        unique_keys(s.remove(i), kf),
    decreases s.len(),
{
    let sr = s.remove(i);
    assert forall|x: int, y: int| 0 <= x < y < sr.len() implies #[trigger] kf(sr[x])
        != #[trigger] kf(sr[y]) by {
        let xo = if x < i {
            x
        } else {
            x + 1
        };
        let yo = if y < i {
            y
        } else {
            y + 1
        };
        assert(kf(s[xo]) != kf(s[yo]));
    }
    lemma_unique_keys_drop_last(s, kf);
    if i == s.len() - 1 {
        assert(sr =~= s.drop_last());
        lemma_assoc_map_contains_key(s.drop_last(), kf, vf, kf(s[i]));
        assert forall|j: int| 0 <= j < s.drop_last().len() implies #[trigger] kf(s.drop_last()[j])
            != kf(s[i]) by {
            assert(kf(s[j]) != kf(s[s.len() - 1]));
        }
    } else {
        assert(sr.drop_last() =~= s.drop_last().remove(i));
        assert(sr.last() == s.last());
        assert(kf(s[i]) != kf(s[s.len() - 1]));
        lemma_assoc_map_remove_at(s.drop_last(), kf, vf, i);
    }
}

/// Filtering steps with a push: the appended entry is kept exactly when it
/// satisfies the predicate.
pub proof fn lemma_filter_push<T>(s: Seq<T>, pred: spec_fn(T) -> bool, t: T)
    ensures
        s.push(t).filter(pred) == if pred(t) {
            s.filter(pred).push(t)
        } else {
            s.filter(pred)
        },
{
    reveal(Seq::filter);
    assert(s.push(t).drop_last() =~= s);
}

/// Appending an element inserts it into the sequence's set of members.
pub proof fn lemma_push_to_set<T>(s: Seq<T>, t: T)
    ensures
        s.push(t).to_set() =~= s.to_set().insert(t),
{
    let sp = s.push(t);
    assert forall|x: T| sp.to_set().contains(x) implies s.to_set().insert(t).contains(x) by {
        let j = choose|j: int| 0 <= j < sp.len() && sp[j] == x;
        if j < s.len() {
            assert(s[j] == x);
        }
    }
    assert forall|x: T| s.to_set().insert(t).contains(x) implies sp.to_set().contains(x) by {
        if x == t {
            assert(sp[s.len() as int] == x);
        } else {
            let j = choose|j: int| 0 <= j < s.len() && s[j] == x;
            assert(sp[j] == x);
        }
    }
}

/// Appending an element the sequence does not hold keeps its members
/// pairwise distinct.
pub proof fn lemma_push_no_duplicates<T>(s: Seq<T>, t: T)
    requires
        s.no_duplicates(),
        !s.contains(t),
    ensures
        s.push(t).no_duplicates(),
{
    let sp = s.push(t);
    assert forall|i: int, j: int| 0 <= i < sp.len() && 0 <= j < sp.len() && i != j implies sp[i]
        != sp[j] by {
        if i < s.len() && j < s.len() {
            assert(s[i] != s[j]);
        } else if i < s.len() {
            assert(s[i] != t) by {
                assert(s.contains(s[i]));
            }
        } else if j < s.len() {
            assert(s[j] != t) by {
                assert(s.contains(s[j]));
            }
        }
    }
}

/// On pairwise-distinct members, removing a position removes exactly that
/// member from the sequence's set.
pub proof fn lemma_remove_at_to_set<T>(s: Seq<T>, i: int)
    requires
        s.no_duplicates(),
        0 <= i < s.len(),
    ensures
        s.remove(i).to_set() =~= s.to_set().remove(s[i]),
        s.remove(i).no_duplicates(),
{
    let sr = s.remove(i);
    assert forall|x: int, y: int| 0 <= x < sr.len() && 0 <= y < sr.len() && x != y implies sr[x]
        != sr[y] by {
        let xo = if x < i {
            x
        } else {
            x + 1
        };
        let yo = if y < i {
            y
        } else {
            y + 1
        };
        assert(s[xo] != s[yo]);
    }
    assert forall|x: T| sr.to_set().contains(x) implies s.to_set().remove(s[i]).contains(x) by {
        let j = choose|j: int| 0 <= j < sr.len() && sr[j] == x;
        let jo = if j < i {
            j
        } else {
            j + 1
        };
        assert(s[jo] == x);
        assert(s[jo] != s[i]);
    }
    assert forall|x: T| s.to_set().remove(s[i]).contains(x) implies sr.to_set().contains(x) by {
        let jo = choose|jo: int| 0 <= jo < s.len() && s[jo] == x;
        let j = if jo < i {
            jo
        } else {
            jo - 1
        };
        assert(sr[j] == x);
    }
}

/// A filtered sequence holds exactly the members that pass the predicate.
pub proof fn lemma_filter_to_set<T>(s: Seq<T>, pred: spec_fn(T) -> bool)
    ensures
        s.filter(pred).to_set() =~= s.to_set().filter(pred),
{
    broadcast use vstd::seq_lib::group_filter_ensures;

    let sf = s.filter(pred);
    assert forall|x: T| sf.to_set().contains(x) implies s.to_set().filter(pred).contains(x) by {
        let j = choose|j: int| 0 <= j < sf.len() && sf[j] == x;
        lemma_filter_index_source(s, pred, j);
        assert(pred(sf[j]));
    }
    assert forall|x: T| s.to_set().filter(pred).contains(x) implies sf.to_set().contains(x) by {
        let j = choose|j: int| 0 <= j < s.len() && s[j] == x;
        assert(sf.contains(s[j]));
    }
}

/// Every position of a filtered sequence has a source position in the
/// original sequence.
pub proof fn lemma_filter_index_source<T>(s: Seq<T>, pred: spec_fn(T) -> bool, x: int)
    requires
        0 <= x < s.filter(pred).len(),
    ensures
        exists|xo: int| 0 <= xo < s.len() && s[xo] == #[trigger] s.filter(pred)[x],
    decreases s.len(),
{
    reveal(Seq::filter);
    if s.len() > 0 {
        let sd = s.drop_last();
        if pred(s.last()) && x == s.filter(pred).len() - 1 {
            assert(s[s.len() - 1] == s.filter(pred)[x]);
        } else {
            if pred(s.last()) {
                assert(s.filter(pred).drop_last() == sd.filter(pred));
                assert(s.filter(pred)[x] == sd.filter(pred)[x]);
            } else {
                assert(s.filter(pred) == sd.filter(pred));
            }
            lemma_filter_index_source(sd, pred, x);
            let xo = choose|xo: int| 0 <= xo < sd.len() && sd[xo] == sd.filter(pred)[x];
            assert(s[xo] == s.filter(pred)[x]);
        }
    }
}

/// Filtering keeps keys unique.
pub proof fn lemma_filter_unique_keys<T, K>(
    s: Seq<T>,
    kf: spec_fn(T) -> K,
    pred: spec_fn(T) -> bool,
)
    requires
        unique_keys(s, kf),
    ensures
        unique_keys(s.filter(pred), kf),
    decreases s.len(),
{
    reveal(Seq::filter);
    if s.len() > 0 {
        let sd = s.drop_last();
        lemma_unique_keys_drop_last(s, kf);
        lemma_filter_unique_keys(sd, kf, pred);
        let fd = sd.filter(pred);
        if pred(s.last()) {
            let sf = s.filter(pred);
            assert(sf == fd.push(s.last()));
            assert forall|x: int, y: int| 0 <= x < y < sf.len() implies #[trigger] kf(sf[x])
                != #[trigger] kf(sf[y]) by {
                if y == sf.len() - 1 {
                    assert(sf[x] == fd[x]);
                    lemma_filter_index_source(sd, pred, x);
                    let xo = choose|xo: int| 0 <= xo < sd.len() && sd[xo] == fd[x];
                    assert(kf(s[xo]) != kf(s[s.len() - 1]));
                } else {
                    assert(kf(fd[x]) != kf(fd[y]));
                }
            }
        }
    }
}

/// Filtering keeps members pairwise distinct.
pub proof fn lemma_filter_no_duplicates<T>(s: Seq<T>, pred: spec_fn(T) -> bool)
    requires
        s.no_duplicates(),
    ensures
        s.filter(pred).no_duplicates(),
    decreases s.len(),
{
    reveal(Seq::filter);
    if s.len() > 0 {
        let sd = s.drop_last();
        assert(sd.no_duplicates()) by {
            assert forall|x: int, y: int|
                0 <= x < sd.len() && 0 <= y < sd.len() && x != y implies sd[x] != sd[y] by {
                assert(s[x] != s[y]);
            }
        }
        lemma_filter_no_duplicates(sd, pred);
        if pred(s.last()) {
            assert(s.filter(pred) == sd.filter(pred).push(s.last()));
            assert(!sd.filter(pred).contains(s.last())) by {
                if sd.filter(pred).contains(s.last()) {
                    let x = choose|x: int|
                        0 <= x < sd.filter(pred).len() && sd.filter(pred)[x] == s.last();
                    lemma_filter_index_source(sd, pred, x);
                    let xo = choose|xo: int| 0 <= xo < sd.len() && sd[xo] == sd.filter(pred)[x];
                    assert(s[xo] == s[s.len() - 1]);
                }
            }
            lemma_push_no_duplicates(sd.filter(pred), s.last());
        }
    }
}

/// Filtering entries by a predicate on key and value restricts the map to
/// the pairs that satisfy it.
pub proof fn lemma_assoc_map_filter<T, K, V>(
    s: Seq<T>,
    kf: spec_fn(T) -> K,
    vf: spec_fn(T) -> V,
    pred: spec_fn(T) -> bool,
    keep: spec_fn(K, V) -> bool,
)
    requires
        unique_keys(s, kf),
        forall|t: T| #[trigger] pred(t) == keep(kf(t), vf(t)),
    ensures
        assoc_map(s.filter(pred), kf, vf) =~= Map::new(
            |k: K| assoc_map(s, kf, vf).contains_key(k) && keep(k, assoc_map(s, kf, vf)[k]),
            |k: K| assoc_map(s, kf, vf)[k],
        ),
        unique_keys(s.filter(pred), kf),
    decreases s.len(),
{
    reveal(Seq::filter);
    lemma_filter_unique_keys(s, kf, pred);
    let m = assoc_map(s, kf, vf);
    let target = Map::new(|k: K| m.contains_key(k) && keep(k, m[k]), |k: K| m[k]);
    if s.len() == 0 {
        assert(assoc_map(s.filter(pred), kf, vf) =~= target);
    } else {
        let sd = s.drop_last();
        let t = s.last();
        lemma_unique_keys_drop_last(s, kf);
        lemma_assoc_map_filter(sd, kf, vf, pred, keep);
        let md = assoc_map(sd, kf, vf);
        lemma_assoc_map_contains_key(sd, kf, vf, kf(t));
        assert forall|j: int| 0 <= j < sd.len() implies #[trigger] kf(sd[j]) != kf(t) by {
            assert(kf(s[j]) != kf(s[s.len() - 1]));
        }
        assert(!md.contains_key(kf(t)));
        if pred(t) {
            assert(s.filter(pred) == sd.filter(pred).push(t));
            lemma_assoc_map_push(sd.filter(pred), kf, vf, t);
            assert(assoc_map(s.filter(pred), kf, vf) =~= target);
        } else {
            assert(s.filter(pred) == sd.filter(pred));
            assert(assoc_map(s.filter(pred), kf, vf) =~= target);
        }
    }
}

} // verus!
