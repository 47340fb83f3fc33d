//! A keyed registry: an association list with unique keys, specified as
//! a `Map` from key views to values.  The session registry and the
//! per-type forwarding registries are all instances of it.

use vstd::prelude::*;

verus! {

/// A key a registry can index by: executable equality must decide view
/// equality.
pub trait RegistryKey: View + Sized {
    fn key_eq(&self, other: &Self) -> (r: bool)
        ensures
            r == (self@ == other@),
    ;
}

/// One registration under a key.
pub struct Entry<K, V> {
    pub key: K,
    pub value: V,
}

/// The map that an entry sequence denotes; a later entry for the same
/// key overrides an earlier one.
pub open spec fn map_of<K: View, V>(s: Seq<Entry<K, V>>) -> Map<K::V, V>
    decreases s.len(),
{
    if s.len() == 0 {
        Map::empty()
    } else {
        map_of(s.drop_last()).insert(s.last().key@, s.last().value)
    }
}

/// No two entries share a key.
pub open spec fn unique_keys<K: View, V>(s: Seq<Entry<K, V>>) -> bool {
    forall|i: int, j: int|
        0 <= i < j < s.len() ==> s[i].key@ != s[j].key@
}

proof fn lemma_map_of_contains<K: View, V>(s: Seq<Entry<K, V>>, k: K::V)
    ensures
        map_of(s).contains_key(k) <==> exists|i: int| 0 <= i < s.len() && (#[trigger] s[i]).key@ == k,
    decreases s.len(),
{
    if s.len() > 0 {
        lemma_map_of_contains(s.drop_last(), k);
        if s.last().key@ == k {
            assert(s[s.len() - 1].key@ == k);
        } else {
            if map_of(s).contains_key(k) {
                let i = choose|i: int| 0 <= i < s.drop_last().len() && (#[trigger] s.drop_last()[i]).key@ == k;
                assert(s[i].key@ == k);
            }
            if exists|i: int| 0 <= i < s.len() && (#[trigger] s[i]).key@ == k {
                let i = choose|i: int| 0 <= i < s.len() && (#[trigger] s[i]).key@ == k;
                assert(s.drop_last()[i].key@ == k);
            }
        }
    }
}

proof fn lemma_map_of_index<K: View, V>(s: Seq<Entry<K, V>>, i: int)
    requires
        unique_keys(s),
        0 <= i < s.len(),
    ensures
        map_of(s).contains_key(s[i].key@),
        map_of(s)[s[i].key@] == s[i].value,
    decreases s.len(),
{
    lemma_map_of_contains(s, s[i].key@);
    if i < s.len() - 1 {
        assert(s.drop_last()[i] == s[i]);
        lemma_map_of_index(s.drop_last(), i);
    }
}

proof fn lemma_map_of_remove<K: View, V>(s: Seq<Entry<K, V>>, i: int)
    requires
        unique_keys(s),
        0 <= i < s.len(),
    ensures
        map_of(s.remove(i)) =~= map_of(s).remove(s[i].key@),
    decreases s.len(),
{
    let k = s[i].key@;
    if i == s.len() - 1 {
        assert(s.remove(i) =~= s.drop_last());
        lemma_map_of_contains(s.drop_last(), k);
        assert(!map_of(s.drop_last()).contains_key(k));
        assert(map_of(s).remove(k) =~= map_of(s.drop_last()));
    } else {
        assert(s.remove(i).last() == s.last());
        assert(s.remove(i).drop_last() =~= s.drop_last().remove(i));
        lemma_map_of_remove(s.drop_last(), i);
        assert(map_of(s.remove(i)) =~= map_of(s.drop_last()).remove(k).insert(s.last().key@, s.last().value));
        assert(s.last().key@ != k);
    }
}

/// A registry keyed by `K`.  All operations keep the keys unique, and
/// are specified against the `Map` view.
pub struct Registry<K, V> {
    entries: Vec<Entry<K, V>>,
}

impl<K: View, V> View for Registry<K, V> {
    type V = Map<K::V, V>;

    closed spec fn view(&self) -> Map<K::V, V> {
        map_of(self.entries@)
    }
}

impl<K: RegistryKey, V> Registry<K, V> {
    /// Well-formed: no key occurs twice.
    pub closed spec fn wf(&self) -> bool {
        unique_keys(self.entries@)
    }

    /// The empty registry.
    pub fn new() -> (r: Registry<K, V>)
        ensures
            r.wf(),
            r@ == Map::<K::V, V>::empty(),
    {
        Registry { entries: Vec::new() }
    }

    /// The index of the entry for `key`, if one is registered.
    fn find(&self, key: &K) -> (r: Option<usize>)
        ensures
            match r {
                Some(i) => i < self.entries@.len() && self.entries@[i as int].key@ == key@,
                None => forall|j: int| 0 <= j < self.entries@.len() ==> (#[trigger] self.entries@[j]).key@ != key@,
            },
    {
        let n = self.entries.len();
        for i in 0..n
            invariant
                n == self.entries@.len(),
                forall|j: int| 0 <= j < i ==> (#[trigger] self.entries@[j]).key@ != key@,
        {
            if self.entries[i].key.key_eq(key) {
                return Some(i);
            }
        }
        None
    }

    /// Whether `key` is registered.
    pub fn contains(&self, key: &K) -> (r: bool)
        ensures
            r == self@.contains_key(key@),
    {
        proof {
            lemma_map_of_contains(self.entries@, key@);
        }
        self.find(key).is_some()
    }

    /// The value registered under `key`.
    pub fn get(&self, key: &K) -> (r: Option<&V>)
        requires
            self.wf(),
        ensures
            match r {
                Some(v) => self@.contains_key(key@) && *v == self@[key@],
                None => !self@.contains_key(key@),
            },
    {
        proof {
            lemma_map_of_contains(self.entries@, key@);
        }
        match self.find(key) {
            Some(i) => {
                proof {
                    lemma_map_of_index(self.entries@, i as int);
                }
                Some(&self.entries[i].value)
            }
            None => None,
        }
    }

    /// Removes the registration under `key` and returns its value.
    pub fn remove(&mut self, key: &K) -> (r: Option<V>)
        requires
            old(self).wf(),
        ensures
            final(self).wf(),
            final(self)@ == old(self)@.remove(key@),
            match r {
                Some(v) => old(self)@.contains_key(key@) && v == old(self)@[key@],
                None => !old(self)@.contains_key(key@) && final(self)@ == old(self)@,
            },
    {
        let ghost s = self.entries@;
        proof {
            lemma_map_of_contains(s, key@);
        }
        match self.find(key) {
            Some(i) => {
                proof {
                    lemma_map_of_index(s, i as int);
                    lemma_map_of_remove(s, i as int);
                }
                let entry = self.entries.remove(i);
                proof {
                    assert forall|p: int, q: int|
                        0 <= p < q < self.entries@.len() implies (#[trigger] self.entries@[p]).key@
                        != (#[trigger] self.entries@[q]).key@ by {
                        assert(self.entries@[p] == if p < i { s[p] } else { s[p + 1] });
                        assert(self.entries@[q] == if q < i { s[q] } else { s[q + 1] });
                    }
                }
                Some(entry.value)
            }
            None => {
                proof {
                    assert(map_of(s).remove(key@) =~= map_of(s));
                }
                None
            }
        }
    }

    /// Registers `value` under `key`; an existing registration under
    /// the same key is overwritten.
    pub fn insert(&mut self, key: K, value: V)
        requires
            old(self).wf(),
        ensures
            final(self).wf(),
            final(self)@ == old(self)@.insert(key@, value),
    {
        let ghost pre = map_of(self.entries@);
        self.remove(&key);
        let ghost mid = self.entries@;
        proof {
            lemma_map_of_contains(mid, key@);
        }
        self.entries.push(Entry { key, value });
        proof {
            assert(self.entries@.drop_last() =~= mid);
            assert forall|p: int, q: int|
                0 <= p < q < self.entries@.len() implies (#[trigger] self.entries@[p]).key@
                != (#[trigger] self.entries@[q]).key@ by {
                if q == self.entries@.len() - 1 {
                    assert(self.entries@[p] == mid[p]);
                }
            }
            assert(map_of(self.entries@) =~= pre.remove(key@).insert(key@, self.entries@.last().value));
            assert(map_of(self.entries@) =~= pre.insert(key@, self.entries@.last().value));
        }
    }
}

} // verus!
