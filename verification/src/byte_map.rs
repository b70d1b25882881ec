use vstd::prelude::*;

use crate::bytes::bytes_eq;

verus! {

/// The position of key `k` in a sequence of keys that holds it.
pub open spec fn key_position(keys: Seq<Seq<u8>>, k: Seq<u8>) -> int {
    choose|i: int| 0 <= i < keys.len() && keys[i] == k
}

/// The map that a sequence of distinct keys and a sequence of values of
/// the same length describe: the key at each position maps to the value there.
pub open spec fn entries_map<V>(keys: Seq<Seq<u8>>, values: Seq<V>) -> Map<Seq<u8>, V> {
    Map::new(|k: Seq<u8>| keys.contains(k), |k: Seq<u8>| values[key_position(keys, k)])
}

/// No key occurs twice.
pub open spec fn distinct_keys(keys: Seq<Seq<u8>>) -> bool {
    forall|i: int, j: int| 0 <= i < keys.len() && 0 <= j < keys.len() && i != j ==> keys[i] != keys[j]
}

/// Adding a new key at the end of the sequences adds it to the map they describe.
pub proof fn lemma_entries_map_push<V>(keys: Seq<Seq<u8>>, values: Seq<V>, k: Seq<u8>, v: V)
    requires
        keys.len() == values.len(),
        distinct_keys(keys),
        !keys.contains(k),
    ensures
        distinct_keys(keys.push(k)),
        entries_map(keys.push(k), values.push(v)) == entries_map(keys, values).insert(k, v),
{
    let new_keys = keys.push(k);
    let new_values = values.push(v);
    assert forall|i: int, j: int|
        0 <= i < new_keys.len() && 0 <= j < new_keys.len() && i != j implies new_keys[i]
        != new_keys[j] by {
        if i == keys.len() {
            assert(keys[j] == new_keys[j]);
        } else if j == keys.len() {
            assert(keys[i] == new_keys[i]);
        }
    }
    let m = entries_map(new_keys, new_values);
    let old_m = entries_map(keys, values);
    assert forall|x: Seq<u8>| #[trigger] m.contains_key(x) && x != k implies old_m.contains_key(x)
        && m[x] == old_m[x] by {
        assert(new_keys.contains(x));
        let j = key_position(new_keys, x);
        assert(new_keys[j] == x);
        assert(j < keys.len());
        assert(keys[j] == x);
        assert(keys.contains(x));
        let j2 = key_position(keys, x);
        assert(keys[j2] == x);
        assert(new_keys[j2] == x);
    }
    assert forall|x: Seq<u8>| old_m.contains_key(x) implies #[trigger] m.contains_key(x) by {
        let j3 = choose|j3: int| 0 <= j3 < keys.len() && keys[j3] == x;
        assert(new_keys[j3] == x);
    }
    assert(new_keys[keys.len() as int] == k);
    assert(new_keys.contains(k));
    let j = key_position(new_keys, k);
    assert(new_keys[j] == k);
    assert(m =~= old_m.insert(k, v));
}

/// A map keyed by byte strings that keeps its entries in the order in which
/// their keys were first inserted.
pub struct ByteMap<V> {
    keys: Vec<Vec<u8>>,
    values: Vec<V>,
}

impl<V> View for ByteMap<V> {
    type V = Map<Seq<u8>, V>;

    open spec fn view(&self) -> Map<Seq<u8>, V> {
        entries_map(self.key_seq(), self.value_seq())
    }
}

impl<V> ByteMap<V> {
    /// The keys, in insertion order.
    pub closed spec fn key_seq(&self) -> Seq<Seq<u8>> {
        self.keys@.map_values(|k: Vec<u8>| k@)
    }

    /// The values, at the positions of their keys.
    pub closed spec fn value_seq(&self) -> Seq<V> {
        self.values@
    }

    /// One value per key, and no key twice.
    pub closed spec fn wf(&self) -> bool {
        &&& self.keys@.len() == self.values@.len()
        &&& distinct_keys(self.key_seq())
    }

    /// In a well-formed map the key at position `i` maps to the value at `i`.
    pub proof fn lemma_entry(&self, i: int)
        requires
            self.wf(),
            0 <= i < self.key_seq().len(),
        ensures
            self@.contains_key(self.key_seq()[i]),
            self@[self.key_seq()[i]] == self.value_seq()[i],
    {
        let k = self.key_seq()[i];
        assert(self.key_seq().contains(k));
        let j = key_position(self.key_seq(), k);
        assert(self.key_seq()[j] == k);
    }

    /// The map that the first `i` entries describe.
    pub open spec fn prefix_map(&self, i: int) -> Map<Seq<u8>, V> {
        entries_map(self.key_seq().take(i), self.value_seq().take(i))
    }

    /// No entries describe the empty map, and all of them describe the map.
    pub proof fn lemma_prefix_map_ends(&self)
        requires
            self.wf(),
        ensures
            self.prefix_map(0) == Map::<Seq<u8>, V>::empty(),
            self.prefix_map(self.key_seq().len() as int) == self@,
    {
        assert(self.prefix_map(0) =~= Map::<Seq<u8>, V>::empty());
        assert(self.key_seq().take(self.key_seq().len() as int) =~= self.key_seq());
        assert(self.value_seq().take(self.key_seq().len() as int) =~= self.value_seq());
    }

    /// Each further entry adds its key and value to the map of the entries before it.
    pub proof fn lemma_prefix_map_step(&self, i: int)
        requires
            self.wf(),
            0 <= i < self.key_seq().len(),
        ensures
            self.prefix_map(i + 1) == self.prefix_map(i).insert(
                self.key_seq()[i],
                self.value_seq()[i],
            ),
    {
        let ks = self.key_seq().take(i);
        let vs = self.value_seq().take(i);
        let k = self.key_seq()[i];
        assert(distinct_keys(ks));
        if ks.contains(k) {
            let j = choose|j: int| 0 <= j < ks.len() && ks[j] == k;
            assert(self.key_seq()[j] == k);
        }
        lemma_entries_map_push(ks, vs, k, self.value_seq()[i]);
        assert(self.key_seq().take(i + 1) =~= ks.push(k));
        assert(self.value_seq().take(i + 1) =~= vs.push(self.value_seq()[i]));
    }

    /// An empty map.
    pub fn new() -> (m: Self)
        ensures
            m.wf(),
            m@ == Map::<Seq<u8>, V>::empty(),
            m.key_seq() == Seq::<Seq<u8>>::empty(),
    {
        let m = ByteMap { keys: Vec::new(), values: Vec::new() };
        assert(m.key_seq() =~= Seq::<Seq<u8>>::empty());
        assert(m@ =~= Map::<Seq<u8>, V>::empty());
        m
    }

    /// The number of entries.
    pub fn len(&self) -> (r: usize)
        requires
            self.wf(),
        ensures
            r == self.key_seq().len(),
            r == self@.dom().len(),
    {
        proof {
            self.lemma_dom_len();
        }
        self.keys.len()
    }

    proof fn lemma_dom_len(&self)
        requires
            self.wf(),
        ensures
            self@.dom() == self.key_seq().to_set(),
            self@.dom().len() == self.key_seq().len(),
    {
        assert(self@.dom() =~= self.key_seq().to_set());
        self.key_seq().unique_seq_to_set();
    }

    /// The key at position `i`.
    pub fn key_at(&self, i: usize) -> (r: &Vec<u8>)
        requires
            self.wf(),
            i < self.key_seq().len(),
        ensures
            r@ == self.key_seq()[i as int],
    {
        &self.keys[i]
    }

    /// The value at position `i`.
    pub fn value_at(&self, i: usize) -> (r: &V)
        requires
            self.wf(),
            i < self.key_seq().len(),
        ensures
            *r == self.value_seq()[i as int],
    {
        &self.values[i]
    }

    /// The value at position `i`, to be changed in place.
    pub fn value_at_mut(&mut self, i: usize) -> (r: &mut V)
        requires
            old(self).wf(),
            i < old(self).key_seq().len(),
        ensures
            *r == old(self).value_seq()[i as int],
            final(self).wf(),
            final(self).key_seq() == old(self).key_seq(),
            final(self).value_seq() == old(self).value_seq().update(i as int, *final(r)),
    {
        &mut self.values[i]
    }

    /// The position of `key`, if the map holds it.
    pub fn position(&self, key: &[u8]) -> (r: Option<usize>)
        requires
            self.wf(),
        ensures
            match r {
                Some(i) => i < self.key_seq().len() && self.key_seq()[i as int] == key@,
                None => !self@.contains_key(key@),
            },
    {
        let n = self.keys.len();
        let mut i: usize = 0;
        while i < n
            invariant
                self.wf(),
                n == self.key_seq().len(),
                i <= n,
                forall|j: int| 0 <= j < i ==> self.key_seq()[j] != key@,
            decreases n - i,
        {
            if bytes_eq(self.keys[i].as_slice(), key) {
                return Some(i);
            }
            i = i + 1;
        }
        None
    }

    /// The value stored under `key`, if any.
    pub fn get(&self, key: &[u8]) -> (r: Option<&V>)
        requires
            self.wf(),
        ensures
            match r {
                Some(v) => self@.contains_key(key@) && *v == self@[key@],
                None => !self@.contains_key(key@),
            },
    {
        match self.position(key) {
            Some(i) => {
                proof {
                    self.lemma_entry(i as int);
                }
                Some(&self.values[i])
            },
            None => None,
        }
    }

    /// Stores `value` under `key`, replacing what was stored there before;
    /// a new key goes after all the others.
    pub fn insert(&mut self, key: Vec<u8>, value: V)
        requires
            old(self).wf(),
        ensures
            final(self).wf(),
            final(self)@ == old(self)@.insert(key@, value),
            old(self)@.contains_key(key@) ==> final(self).key_seq() == old(self).key_seq(),
            !old(self)@.contains_key(key@) ==> final(self).key_seq() == old(self).key_seq().push(
                key@,
            ),
    {
        let ghost old_keys = self.key_seq();
        let ghost old_values = self.value_seq();
        match self.position(key.as_slice()) {
            Some(i) => {
                proof {
                    self.lemma_entry(i as int);
                }
                self.values.set(i, value);
                proof {
                    assert(self.key_seq() == old_keys);
                    assert forall|k: Seq<u8>| #[trigger]
                        self@.contains_key(k) && k != key@ implies self@[k] == old(self)@[k] by {
                        let j = key_position(old_keys, k);
                        assert(old_keys.contains(k));
                        assert(old_keys[j] == k);
                        assert(j != i);
                    }
                    let j = key_position(old_keys, key@);
                    assert(old_keys.contains(key@));
                    assert(j == i);
                    assert(self@ =~= old(self)@.insert(key@, value));
                }
            },
            None => {
                proof {
                    assert(!old_keys.contains(key@));
                    lemma_entries_map_push(old_keys, old_values, key@, value);
                }
                let ghost kv = key@;
                self.keys.push(key);
                self.values.push(value);
                proof {
                    assert(self.key_seq() =~= old_keys.push(kv));
                    assert(self.value_seq() =~= old_values.push(value));
                }
            },
        }
    }
}

} // verus!
