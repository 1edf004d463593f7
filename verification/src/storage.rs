//! A storage map, kept as a sequence of entries in storage order with no
//! key twice. Keys are 32-byte ids (accounts or pool ids) or pairs of them.

use vstd::prelude::*;
use crate::support::bytes32_eq;

verus! {

/// A key the storage can compare.
pub trait StorageKey: Sized {
    fn key_eq(&self, other: &Self) -> (r: bool)
        ensures
            r == (*self == *other),
    ;
}

impl StorageKey for [u8; 32] {
    fn key_eq(&self, other: &Self) -> (r: bool) {
        bytes32_eq(self, other)
    }
}

impl StorageKey for ([u8; 32], [u8; 32]) {
    fn key_eq(&self, other: &Self) -> (r: bool) {
        bytes32_eq(&self.0, &other.0) && bytes32_eq(&self.1, &other.1)
    }
}

#[derive(Clone, Copy, Debug, PartialEq, Eq)]
pub struct KeyEntry<K, V> {
    pub key: K,
    pub value: V,
}

pub open spec fn kv_unique<K, V>(s: Seq<KeyEntry<K, V>>) -> bool {
    forall|i: int, j: int|
        0 <= i < s.len() && 0 <= j < s.len() && i != j ==> (#[trigger] s[i]).key != (
        #[trigger] s[j]).key
}

pub open spec fn kv_has<K, V>(s: Seq<KeyEntry<K, V>>, k: K) -> bool {
    exists|i: int| 0 <= i < s.len() && (#[trigger] s[i]).key == k
}

pub open spec fn kv_index<K, V>(s: Seq<KeyEntry<K, V>>, k: K) -> int {
    choose|i: int| 0 <= i < s.len() && (#[trigger] s[i]).key == k
}

/// The value stored under a key.
pub open spec fn kv_lookup<K, V>(s: Seq<KeyEntry<K, V>>, k: K) -> Option<V> {
    if kv_has(s, k) {
        Some(s[kv_index(s, k)].value)
    } else {
        None
    }
}

/// Storing a value: an existing key keeps its place, a new key goes last.
pub open spec fn kv_insert<K, V>(s: Seq<KeyEntry<K, V>>, k: K, v: V) -> Seq<KeyEntry<K, V>> {
    if kv_has(s, k) {
        s.update(kv_index(s, k), KeyEntry { key: k, value: v })
    } else {
        s.push(KeyEntry { key: k, value: v })
    }
}

/// Removing a key; nothing changes when it is not stored.
pub open spec fn kv_remove<K, V>(s: Seq<KeyEntry<K, V>>, k: K) -> Seq<KeyEntry<K, V>> {
    if kv_has(s, k) {
        s.remove(kv_index(s, k))
    } else {
        s
    }
}

proof fn lemma_kv_index<K, V>(s: Seq<KeyEntry<K, V>>, i: int, k: K)
    requires
        kv_unique(s),
        0 <= i < s.len(),
        s[i].key == k,
    ensures
        kv_has(s, k),
        kv_index(s, k) == i,
{
    let j = kv_index(s, k);
    assert(s[j].key == k);
}

pub proof fn lemma_kv_insert_unique<K, V>(s: Seq<KeyEntry<K, V>>, k: K, v: V)
    requires
        kv_unique(s),
    ensures
        kv_unique(kv_insert(s, k, v)),
{
    let t = kv_insert(s, k, v);
    if kv_has(s, k) {
        let p = kv_index(s, k);
        assert(s[p].key == k);
        assert forall|i: int, j: int|
            0 <= i < t.len() && 0 <= j < t.len() && i != j implies (#[trigger] t[i]).key != (
            #[trigger] t[j]).key by {
            assert(s[i].key != s[j].key);
        }
    } else {
        assert forall|i: int, j: int|
            0 <= i < t.len() && 0 <= j < t.len() && i != j implies (#[trigger] t[i]).key != (
            #[trigger] t[j]).key by {
            if i < s.len() && j < s.len() {
                assert(s[i].key != s[j].key);
            } else if i < s.len() {
                assert(s[i].key != k);
            } else {
                assert(s[j].key != k);
            }
        }
    }
}

pub proof fn lemma_kv_remove_unique<K, V>(s: Seq<KeyEntry<K, V>>, k: K)
    requires
        kv_unique(s),
    ensures
        kv_unique(kv_remove(s, k)),
{
    if kv_has(s, k) {
        let p = kv_index(s, k);
        let t = s.remove(p);
        assert forall|i: int, j: int|
            0 <= i < t.len() && 0 <= j < t.len() && i != j implies (#[trigger] t[i]).key != (
            #[trigger] t[j]).key by {
            let si = if i < p { i } else { i + 1 };
            let sj = if j < p { j } else { j + 1 };
            assert(t[i] == s[si]);
            assert(t[j] == s[sj]);
            assert(s[si].key != s[sj].key);
        }
    }
}

/// A read after a write gives back what was written and leaves every other
/// key as it was.
pub proof fn lemma_kv_lookup_insert<K, V>(s: Seq<KeyEntry<K, V>>, k: K, v: V, other: K)
    requires
        kv_unique(s),
    ensures
        kv_lookup(kv_insert(s, k, v), k) == Some(v),
        other != k ==> kv_lookup(kv_insert(s, k, v), other) == kv_lookup(s, other),
{
    let t = kv_insert(s, k, v);
    lemma_kv_insert_unique(s, k, v);
    let pos = if kv_has(s, k) {
        kv_index(s, k)
    } else {
        s.len() as int
    };
    if kv_has(s, k) {
        assert(s[pos].key == k);
    }
    assert(t[pos] == KeyEntry { key: k, value: v });
    lemma_kv_index(t, pos, k);
    if other != k {
        if kv_has(s, other) {
            let q = kv_index(s, other);
            assert(s[q].key == other);
            assert(t[q] == s[q]);
            lemma_kv_index(t, q, other);
        } else if kv_has(t, other) {
            let q = kv_index(t, other);
            assert(t[q].key == other);
            assert(q != pos);
            assert(s[q] == t[q]);
        }
    }
}

/// After removal the key is gone and every other key is as it was.
pub proof fn lemma_kv_lookup_remove<K, V>(s: Seq<KeyEntry<K, V>>, k: K, other: K)
    requires
        kv_unique(s),
    ensures
        kv_lookup(kv_remove(s, k), k) is None,
        other != k ==> kv_lookup(kv_remove(s, k), other) == kv_lookup(s, other),
{
    let t = kv_remove(s, k);
    lemma_kv_remove_unique(s, k);
    if kv_has(s, k) {
        let p = kv_index(s, k);
        assert(s[p].key == k);
        if kv_has(t, k) {
            let q = kv_index(t, k);
            assert(t[q].key == k);
            let sq = if q < p { q } else { q + 1 };
            assert(t[q] == s[sq]);
            assert(s[sq].key != s[p].key);
        }
        if other != k {
            if kv_has(s, other) {
                let o = kv_index(s, other);
                assert(s[o].key == other);
                let to = if o < p { o } else { o - 1 };
                assert(t[to] == s[o]);
                lemma_kv_index(t, to, other);
            } else if kv_has(t, other) {
                let q = kv_index(t, other);
                assert(t[q].key == other);
                let sq = if q < p { q } else { q + 1 };
                assert(t[q] == s[sq]);
            }
        }
    }
}

/// The position of a key.
pub fn kv_find<K: StorageKey, V>(s: &Vec<KeyEntry<K, V>>, k: &K) -> (r: Option<usize>)
    requires
        kv_unique(s@),
    ensures
        match r {
            Some(i) => kv_has(s@, *k) && i == kv_index(s@, *k),
            None => !kv_has(s@, *k),
        },
{
    let mut i: usize = 0;
    while i < s.len()
        invariant
            0 <= i <= s.len(),
            kv_unique(s@),
            forall|j: int| 0 <= j < i ==> (#[trigger] s@[j]).key != *k,
        decreases s.len() - i,
    {
        if s[i].key.key_eq(k) {
            proof {
                lemma_kv_index(s@, i as int, *k);
            }
            return Some(i);
        }
        i = i + 1;
    }
    None
}

/// Whether a key is stored.
pub fn kv_contains<K: StorageKey, V>(s: &Vec<KeyEntry<K, V>>, k: &K) -> (r: bool)
    requires
        kv_unique(s@),
    ensures
        r == kv_has(s@, *k),
{
    kv_find(s, k).is_some()
}

/// Writing a key.
pub fn kv_insert_exec<K: StorageKey, V>(s: &mut Vec<KeyEntry<K, V>>, k: K, v: V)
    requires
        kv_unique(old(s)@),
    ensures
        final(s)@ == kv_insert(old(s)@, k, v),
        kv_unique(final(s)@),
{
    proof {
        lemma_kv_insert_unique(s@, k, v);
    }
    let found = kv_find(s, &k);
    let e = KeyEntry { key: k, value: v };
    match found {
        Some(i) => {
            s.set(i, e);
        },
        None => {
            s.push(e);
        },
    }
}

/// Removing a key.
pub fn kv_remove_exec<K: StorageKey, V>(s: &mut Vec<KeyEntry<K, V>>, k: &K)
    requires
        kv_unique(old(s)@),
    ensures
        final(s)@ == kv_remove(old(s)@, *k),
        kv_unique(final(s)@),
{
    proof {
        lemma_kv_remove_unique(s@, *k);
    }
    match kv_find(s, k) {
        Some(i) => {
            s.remove(i);
        },
        None => {},
    }
}

} // verus!
