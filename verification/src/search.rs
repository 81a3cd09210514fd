//! The first place of a key in a sequence of keys.
use vstd::prelude::*;

verus! {

/// The first place of `keys` that holds `key`, if any.
pub open spec fn first_position<K>(keys: Seq<K>, key: K) -> Option<int> {
    if exists|i: int| 0 <= i < keys.len() && keys[i] == key {
        Some(
            choose|i: int|
                0 <= i < keys.len() && keys[i] == key && forall|j: int| 0 <= j < i ==> keys[j] != key,
        )
    } else {
        None
    }
}

/// A place that holds `key`, with no earlier one, is the first place.
pub proof fn lemma_first_position_at<K>(keys: Seq<K>, key: K, i: int)
    requires
        0 <= i < keys.len(),
        keys[i] == key,
        forall|j: int| 0 <= j < i ==> keys[j] != key,
    ensures
        first_position(keys, key) == Some(i),
{
    assert(exists|m: int| 0 <= m < keys.len() && keys[m] == key);
    let c = choose|m: int|
        0 <= m < keys.len() && keys[m] == key && forall|j: int| 0 <= j < m ==> keys[j] != key;
    assert(c == i) by {
        if c < i {
            assert(keys[c] != key);
        } else if c > i {
            assert(keys[i] != key);
        }
    };
}

/// When no place holds `key`, there is no first place.
pub proof fn lemma_first_position_none<K>(keys: Seq<K>, key: K)
    requires
        forall|j: int| 0 <= j < keys.len() ==> keys[j] != key,
    ensures
        first_position(keys, key).is_none(),
{
}

/// The first place, when there is one, is within `keys` and holds `key`.
pub proof fn lemma_first_position_holds<K>(keys: Seq<K>, key: K)
    ensures
        first_position(keys, key) matches Some(i) ==> 0 <= i < keys.len() && keys[i] == key,
        first_position(keys, key) is None ==> forall|j: int| 0 <= j < keys.len() ==> keys[j] != key,
{
    if exists|i: int| 0 <= i < keys.len() && keys[i] == key {
        let w = choose|i: int| 0 <= i < keys.len() && keys[i] == key;
        lemma_first_witness(keys, key, w);
    }
}

/// When some place holds `key`, a first such place exists.
proof fn lemma_first_witness<K>(keys: Seq<K>, key: K, w: int)
    requires
        0 <= w < keys.len(),
        keys[w] == key,
    ensures
        exists|i: int|
            0 <= i < keys.len() && keys[i] == key && forall|j: int| 0 <= j < i ==> keys[j] != key,
    decreases w,
{
    if exists|j: int| 0 <= j < w && keys[j] == key {
        let e = choose|j: int| 0 <= j < w && keys[j] == key;
        lemma_first_witness(keys, key, e);
    } else {
        assert(forall|j: int| 0 <= j < w ==> keys[j] != key);
    }
}

} // verus!
