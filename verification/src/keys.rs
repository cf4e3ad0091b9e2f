//! Lists of keys: finding and removing the first occurrence of a key.

use vstd::prelude::*;

verus! {

/// The first position of `key` in `keys`.
pub open spec fn is_first(keys: Seq<u64>, key: u64, i: int) -> bool {
    &&& 0 <= i < keys.len()
    &&& keys[i] == key
    &&& forall|j: int| 0 <= j < i ==> keys[j] != key
}

/// The position of the first occurrence of `key`, if there is one.
pub open spec fn first_index(keys: Seq<u64>, key: u64) -> Option<int> {
    if exists|i: int| is_first(keys, key, i) {
        Some(choose|i: int| is_first(keys, key, i))
    } else {
        None
    }
}

/// `keys` without the first occurrence of `key`.
pub open spec fn without_first(keys: Seq<u64>, key: u64) -> Seq<u64> {
    match first_index(keys, key) {
        Some(i) => keys.remove(i),
        None => keys,
    }
}

/// No key occurs twice.
pub open spec fn distinct(keys: Seq<u64>) -> bool {
    forall|i: int, j: int| 0 <= i < j < keys.len() ==> keys[i] != keys[j]
}

/// There is at most one first position.
pub proof fn lemma_first_index(keys: Seq<u64>, key: u64, i: int)
    requires
        is_first(keys, key, i),
    ensures
        first_index(keys, key) == Some(i),
{
    let j = choose|j: int| is_first(keys, key, j);
    assert(is_first(keys, key, j));
    if j < i {
        assert(keys[j] != key);
    }
    if i < j {
        assert(keys[i] != key);
    }
}

/// A key has a first position exactly if it occurs.
pub proof fn lemma_first_index_none(keys: Seq<u64>, key: u64)
    ensures
        first_index(keys, key) is None <==> !keys.contains(key),
        first_index(keys, key) matches Some(i) ==> is_first(keys, key, i),
    decreases keys.len(),
{
    if keys.contains(key) {
        let k = choose|k: int| 0 <= k < keys.len() && keys[k] == key;
        lemma_has_first(keys, key, k);
    } else {
        if exists|i: int| is_first(keys, key, i) {
            let i = choose|i: int| is_first(keys, key, i);
            assert(keys[i] == key);
            assert(keys.contains(key));
        }
    }
}

proof fn lemma_has_first(keys: Seq<u64>, key: u64, k: int)
    requires
        0 <= k < keys.len(),
        keys[k] == key,
    ensures
        exists|i: int| is_first(keys, key, i),
    decreases k,
{
    if forall|j: int| 0 <= j < k ==> keys[j] != key {
        assert(is_first(keys, key, k));
    } else {
        let j = choose|j: int| 0 <= j < k && keys[j] == key;
        lemma_has_first(keys, key, j);
    }
}

/// Removing the first occurrence of a key that occurs shortens a list by one
/// and keeps every other key.
pub proof fn lemma_without_first(keys: Seq<u64>, key: u64)
    requires
        keys.contains(key),
    ensures
        without_first(keys, key).len() == keys.len() - 1,
        forall|other: u64|
            other != key && keys.contains(other) ==> #[trigger] without_first(keys, key).contains(
                other,
            ),
{
    lemma_first_index_none(keys, key);
    let i = first_index(keys, key)->0;
    assert forall|other: u64| other != key && keys.contains(other) implies #[trigger] keys.remove(
        i,
    ).contains(other) by {
        let k = choose|k: int| 0 <= k < keys.len() && keys[k] == other;
        if k < i {
            assert(keys.remove(i)[k] == other);
        } else {
            assert(keys.remove(i)[k - 1] == other);
        }
    }
}

/// The position of the first occurrence of `key` in `keys`.
pub fn position(keys: &Vec<u64>, key: u64) -> (r: Option<usize>)
    ensures
        match r {
            Some(i) => first_index(keys@, key) == Some(i as int),
            None => first_index(keys@, key) is None,
        },
{
    let mut i: usize = 0;
    while i < keys.len()
        invariant
            i <= keys.len(),
            forall|j: int| 0 <= j < i ==> keys@[j] != key,
        decreases keys.len() - i,
    {
        if keys[i] == key {
            proof {
                assert(is_first(keys@, key, i as int));
                lemma_first_index(keys@, key, i as int);
            }
            return Some(i);
        }
        i = i + 1;
    }
    proof {
        if exists|k: int| is_first(keys@, key, k) {
            let k = choose|k: int| is_first(keys@, key, k);
            assert(keys@[k] == key);
        }
    }
    None
}

/// Removes the first occurrence of `key` from `keys`. Returns whether there
/// was one.
pub fn remove_first(keys: &mut Vec<u64>, key: u64) -> (found: bool)
    ensures
        final(keys)@ == without_first(old(keys)@, key),
        found == old(keys)@.contains(key),
{
    proof {
        lemma_first_index_none(keys@, key);
    }
    match position(keys, key) {
        Some(i) => {
            keys.remove(i);
            true
        },
        None => false,
    }
}

} // verus!
