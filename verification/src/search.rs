use vstd::prelude::*;

verus! {

/// The position of the first occurrence of `key` in `keys`, or `-1` when
/// `keys` holds no occurrence at all.
pub open spec fn first_index_of<K>(keys: Seq<K>, key: K) -> int
    decreases keys.len(),
{
    if keys.len() == 0 {
        -1
    } else if keys[0] == key {
        0
    } else if first_index_of(keys.drop_first(), key) == -1 {
        -1
    } else {
        first_index_of(keys.drop_first(), key) + 1
    }
}

/// `first_index_of` yields `-1` exactly when `key` is absent; otherwise it
/// yields a position of `key` that no earlier position shares.
pub proof fn lemma_first_index_of<K>(keys: Seq<K>, key: K)
    ensures
        -1 <= first_index_of(keys, key) < keys.len(),
        first_index_of(keys, key) == -1 <==> (forall|k: int|
            0 <= k < keys.len() ==> keys[k] != key),
        first_index_of(keys, key) >= 0 ==> keys[first_index_of(keys, key)] == key,
        forall|k: int| 0 <= k < first_index_of(keys, key) ==> keys[k] != key,
    decreases keys.len(),
{
    if keys.len() == 0 {
    } else if keys[0] == key {
    } else {
        let tail = keys.drop_first();
        lemma_first_index_of(tail, key);
        assert(forall|k: int| 0 <= k < tail.len() ==> tail[k] == keys[k + 1]);
        if first_index_of(tail, key) == -1 {
            assert forall|k: int| 0 <= k < keys.len() implies keys[k] != key by {
                if k >= 1 {
                    assert(tail[k - 1] != key);
                }
            }
        } else {
            let r = first_index_of(tail, key);
            assert(keys[r + 1] == tail[r]);
            assert(keys[r + 1] == key);
            assert forall|k: int| 0 <= k < r + 1 implies keys[k] != key by {
                if k >= 1 {
                    assert(tail[k - 1] != key);
                }
            }
        }
    }
}

/// A position of `key` that no earlier position shares is exactly what
/// `first_index_of` yields.
pub proof fn lemma_first_index_of_is<K>(keys: Seq<K>, key: K, i: int)
    requires
        0 <= i < keys.len(),
        keys[i] == key,
        forall|k: int| 0 <= k < i ==> keys[k] != key,
    ensures
        first_index_of(keys, key) == i,
{
    lemma_first_index_of(keys, key);
    let r = first_index_of(keys, key);
    if r < i {
        assert(keys[r] == key);
    } else if r > i {
        assert(keys[i] != key);
    }
}

} // verus!
