//! Maps given by a list of key and value pairs with different keys.

use vstd::prelude::*;

verus! {

/// The map that a list of pairs writes down.
pub open spec fn assoc_map<K, V>(pairs: Seq<(K, V)>) -> Map<K, V>
    decreases pairs.len(),
{
    if pairs.len() == 0 {
        Map::empty()
    } else {
        assoc_map(pairs.drop_last()).insert(pairs.last().0, pairs.last().1)
    }
}

/// No key stands in two pairs.
pub open spec fn distinct_keys<K, V>(pairs: Seq<(K, V)>) -> bool {
    forall|i: int, j: int|
        0 <= i < j < pairs.len() ==> (#[trigger] pairs[i]).0 != (#[trigger] pairs[j]).0
}

/// What the map of a list holds, and how much.
pub proof fn lemma_assoc<K, V>(pairs: Seq<(K, V)>)
    requires
        distinct_keys(pairs),
    ensures
        assoc_map(pairs).dom().finite(),
        assoc_map(pairs).dom().len() == pairs.len(),
        forall|i: int|
            0 <= i < pairs.len() ==> assoc_map(pairs).contains_key((#[trigger] pairs[i]).0)
                && assoc_map(pairs)[pairs[i].0] == pairs[i].1,
        forall|k: K|
            assoc_map(pairs).contains_key(k) ==> exists|i: int|
                0 <= i < pairs.len() && (#[trigger] pairs[i]).0 == k,
    decreases pairs.len(),
{
    if pairs.len() > 0 {
        let fewer = pairs.drop_last();
        assert forall|i: int, j: int| 0 <= i < j < fewer.len() implies (#[trigger] fewer[i]).0 != (
        #[trigger] fewer[j]).0 by {
            assert(pairs[i].0 != pairs[j].0);
        }
        lemma_assoc(fewer);
        assert(!assoc_map(fewer).contains_key(pairs.last().0)) by {
            if assoc_map(fewer).contains_key(pairs.last().0) {
                let i = choose|i: int|
                    0 <= i < fewer.len() && (#[trigger] fewer[i]).0 == pairs.last().0;
                assert(pairs[i].0 != pairs[pairs.len() - 1].0);
            }
        }
        assert(assoc_map(pairs).dom() =~= assoc_map(fewer).dom().insert(pairs.last().0));
        assert forall|i: int| 0 <= i < pairs.len() implies assoc_map(pairs).contains_key(
            (#[trigger] pairs[i]).0,
        ) && assoc_map(pairs)[pairs[i].0] == pairs[i].1 by {
            if i < fewer.len() {
                assert(fewer[i] == pairs[i]);
                assert(pairs[i].0 != pairs[pairs.len() - 1].0);
            }
        }
        assert forall|k: K| assoc_map(pairs).contains_key(k) implies exists|i: int|
            0 <= i < pairs.len() && (#[trigger] pairs[i]).0 == k by {
            if k == pairs.last().0 {
                assert(pairs[pairs.len() - 1].0 == k);
            } else {
                let i = choose|i: int| 0 <= i < fewer.len() && (#[trigger] fewer[i]).0 == k;
                assert(pairs[i].0 == k);
            }
        }
    } else {
        assert(assoc_map(pairs).dom() =~= Set::empty());
    }
}

/// A pair with a new key adds to the map.
pub proof fn lemma_assoc_push<K, V>(pairs: Seq<(K, V)>, key: K, value: V)
    requires
        distinct_keys(pairs),
        !assoc_map(pairs).contains_key(key),
    ensures
        distinct_keys(pairs.push((key, value))),
        assoc_map(pairs.push((key, value))) == assoc_map(pairs).insert(key, value),
{
    lemma_assoc(pairs);
    assert(pairs.push((key, value)).drop_last() =~= pairs);
}

/// A new value in place of another.
pub proof fn lemma_assoc_update<K, V>(pairs: Seq<(K, V)>, at: int, value: V)
    requires
        distinct_keys(pairs),
        0 <= at < pairs.len(),
    ensures
        distinct_keys(pairs.update(at, (pairs[at].0, value))),
        assoc_map(pairs.update(at, (pairs[at].0, value))) == assoc_map(pairs).insert(
            pairs[at].0,
            value,
        ),
{
    let key = pairs[at].0;
    let changed = pairs.update(at, (key, value));
    assert forall|i: int, j: int| 0 <= i < j < changed.len() implies (#[trigger] changed[i]).0 != (
    #[trigger] changed[j]).0 by {
        assert(pairs[i].0 != pairs[j].0);
    }
    lemma_assoc(pairs);
    lemma_assoc(changed);
    let left = assoc_map(changed);
    let right = assoc_map(pairs).insert(key, value);
    assert forall|k: K| left.contains_key(k) == right.contains_key(k) by {
        if left.contains_key(k) {
            let i = choose|i: int| 0 <= i < changed.len() && (#[trigger] changed[i]).0 == k;
            assert(pairs[i].0 == k);
        }
        if right.contains_key(k) {
            if k == key {
                assert(changed[at].0 == k);
            } else {
                let i = choose|i: int| 0 <= i < pairs.len() && (#[trigger] pairs[i]).0 == k;
                assert(changed[i].0 == k);
            }
        }
    }
    assert forall|k: K| left.contains_key(k) implies left[k] == right[k] by {
        let i = choose|i: int| 0 <= i < changed.len() && (#[trigger] changed[i]).0 == k;
        assert(left[changed[i].0] == changed[i].1);
        if i != at {
            assert(pairs[i].0 == k);
            assert(i < at ==> pairs[i].0 != pairs[at].0);
            assert(at < i ==> pairs[at].0 != pairs[i].0);
        }
    }
    assert(left =~= right);
}

/// A pair leaves.
pub proof fn lemma_assoc_remove<K, V>(pairs: Seq<(K, V)>, at: int)
    requires
        distinct_keys(pairs),
        0 <= at < pairs.len(),
    ensures
        distinct_keys(pairs.remove(at)),
        assoc_map(pairs.remove(at)) == assoc_map(pairs).remove(pairs[at].0),
{
    let key = pairs[at].0;
    let fewer = pairs.remove(at);
    assert forall|i: int, j: int| 0 <= i < j < fewer.len() implies (#[trigger] fewer[i]).0 != (
    #[trigger] fewer[j]).0 by {
        let a = if i < at {
            i
        } else {
            i + 1
        };
        let b = if j < at {
            j
        } else {
            j + 1
        };
        assert(pairs[a].0 != pairs[b].0);
    }
    lemma_assoc(pairs);
    lemma_assoc(fewer);
    let left = assoc_map(fewer);
    let right = assoc_map(pairs).remove(key);
    assert forall|k: K| left.contains_key(k) == right.contains_key(k) by {
        if left.contains_key(k) {
            let i = choose|i: int| 0 <= i < fewer.len() && (#[trigger] fewer[i]).0 == k;
            let a = if i < at {
                i
            } else {
                i + 1
            };
            assert(pairs[a].0 == k);
            assert(a < at ==> pairs[a].0 != pairs[at].0);
            assert(at < a ==> pairs[at].0 != pairs[a].0);
        }
        if right.contains_key(k) {
            let i = choose|i: int| 0 <= i < pairs.len() && (#[trigger] pairs[i]).0 == k;
            let a = if i < at {
                i
            } else {
                i - 1
            };
            assert(fewer[a].0 == k);
        }
    }
    assert forall|k: K| left.contains_key(k) implies left[k] == right[k] by {
        let i = choose|i: int| 0 <= i < fewer.len() && (#[trigger] fewer[i]).0 == k;
        assert(left[fewer[i].0] == fewer[i].1);
        let a = if i < at {
            i
        } else {
            i + 1
        };
        assert(pairs[a] == fewer[i]);
    }
    assert(left =~= right);
}

} // verus!
