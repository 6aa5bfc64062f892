//! A small map with keys that are compared by their views.
//!
//! The registry keeps every table in one of these. A table is a pair of
//! vectors of equal length in which no key occurs twice; its view is the
//! mathematical map from a key's view to the value stored beside it.

use vstd::prelude::*;

verus! {

/// A value that can serve as a key: two keys are the same key exactly when
/// their views are equal, and a key can be copied without changing its view.
pub trait Key: View + Sized {
    /// Whether `self` and `other` are the same key.
    fn same(&self, other: &Self) -> (r: bool)
        ensures
            r == (self@ == other@),
    ;

    /// A copy of this key.
    fn duplicate(&self) -> (r: Self)
        ensures
            r@ == self@,
    ;
}

/// The map that a sequence of distinct keys and a sequence of values stand for.
pub open spec fn paired<A, V>(ks: Seq<A>, vs: Seq<V>) -> Map<A, V> {
    Map::new(|a: A| ks.contains(a), |a: A| vs[ks.index_of(a)])
}

proof fn lemma_paired_empty<A, V>()
    ensures
        paired(Seq::<A>::empty(), Seq::<V>::empty()) == Map::<A, V>::empty(),
{
    assert(paired(Seq::<A>::empty(), Seq::<V>::empty()) =~= Map::<A, V>::empty());
}

proof fn lemma_paired_index<A, V>(ks: Seq<A>, vs: Seq<V>, i: int)
    requires
        ks.no_duplicates(),
        0 <= i < ks.len(),
    ensures
        ks.contains(ks[i]),
        ks.index_of(ks[i]) == i,
        paired(ks, vs).dom().contains(ks[i]),
        paired(ks, vs)[ks[i]] == vs[i],
{
}

proof fn lemma_paired_push<A, V>(ks: Seq<A>, vs: Seq<V>, k: A, v: V)
    requires
        ks.len() == vs.len(),
        ks.no_duplicates(),
        !ks.contains(k),
    ensures
        ks.push(k).no_duplicates(),
        paired(ks.push(k), vs.push(v)) == paired(ks, vs).insert(k, v),
{
    let ks2 = ks.push(k);
    let vs2 = vs.push(v);
    assert(ks2.no_duplicates()) by {
        assert forall|i: int, j: int| 0 <= i < ks2.len() && 0 <= j < ks2.len() && i != j implies ks2[i]
            != ks2[j] by {
            if i < ks.len() && j < ks.len() {
                assert(ks[i] != ks[j]);
            } else if i < ks.len() {
                assert(ks[i] == ks2[i]);
            } else {
                assert(ks[j] == ks2[j]);
            }
        }
    }
    assert forall|a: A| ks2.contains(a) <==> (a == k || ks.contains(a)) by {
        if ks2.contains(a) {
            let i = choose|i: int| 0 <= i < ks2.len() && ks2[i] == a;
            if i < ks.len() {
                assert(ks[i] == a);
            }
        }
        if a == k {
            assert(ks2[ks.len() as int] == a);
        }
        if ks.contains(a) {
            let i = choose|i: int| 0 <= i < ks.len() && ks[i] == a;
            assert(ks2[i] == a);
        }
    }
    assert forall|a: A| ks2.contains(a) implies #[trigger] paired(ks2, vs2)[a] == paired(
        ks,
        vs,
    ).insert(k, v)[a] by {
        let i = ks2.index_of(a);
        if a == k {
            lemma_paired_index(ks2, vs2, ks.len() as int);
        } else {
            let j = ks.index_of(a);
            assert(ks2[j] == a);
            lemma_paired_index(ks2, vs2, j);
        }
    }
    assert(paired(ks2, vs2) =~= paired(ks, vs).insert(k, v));
}

proof fn lemma_paired_update<A, V>(ks: Seq<A>, vs: Seq<V>, i: int, v: V)
    requires
        ks.len() == vs.len(),
        ks.no_duplicates(),
        0 <= i < ks.len(),
    ensures
        paired(ks, vs.update(i, v)) == paired(ks, vs).insert(ks[i], v),
{
    let vs2 = vs.update(i, v);
    lemma_paired_index(ks, vs, i);
    assert forall|a: A| ks.contains(a) implies #[trigger] paired(ks, vs2)[a] == paired(
        ks,
        vs,
    ).insert(ks[i], v)[a] by {
        let j = ks.index_of(a);
        lemma_paired_index(ks, vs, j);
        lemma_paired_index(ks, vs2, j);
    }
    assert(paired(ks, vs2) =~= paired(ks, vs).insert(ks[i], v));
}

proof fn lemma_paired_remove<A, V>(ks: Seq<A>, vs: Seq<V>, i: int)
    requires
        ks.len() == vs.len(),
        ks.no_duplicates(),
        0 <= i < ks.len(),
    ensures
        ks.remove(i).no_duplicates(),
        !ks.remove(i).contains(ks[i]),
        paired(ks.remove(i), vs.remove(i)) == paired(ks, vs).remove(ks[i]),
{
    let ks2 = ks.remove(i);
    let vs2 = vs.remove(i);
    assert forall|j: int| 0 <= j < ks2.len() implies #[trigger] ks2[j] == ks[if j < i {
        j
    } else {
        j + 1
    }] by {}
    assert forall|j: int| 0 <= j < vs2.len() implies #[trigger] vs2[j] == vs[if j < i {
        j
    } else {
        j + 1
    }] by {}
    assert(ks2.no_duplicates()) by {
        assert forall|a: int, b: int| 0 <= a < ks2.len() && 0 <= b < ks2.len() && a != b implies ks2[a]
            != ks2[b] by {
            let a1 = if a < i {
                a
            } else {
                a + 1
            };
            let b1 = if b < i {
                b
            } else {
                b + 1
            };
            assert(ks[a1] != ks[b1]);
        }
    }
    assert(!ks2.contains(ks[i])) by {
        if ks2.contains(ks[i]) {
            let j = choose|j: int| 0 <= j < ks2.len() && ks2[j] == ks[i];
            let j1 = if j < i {
                j
            } else {
                j + 1
            };
            assert(ks[j1] == ks[i]);
        }
    }
    assert forall|a: A| ks2.contains(a) <==> (a != ks[i] && ks.contains(a)) by {
        if ks2.contains(a) {
            let j = choose|j: int| 0 <= j < ks2.len() && ks2[j] == a;
            let j1 = if j < i {
                j
            } else {
                j + 1
            };
            assert(ks[j1] == a);
        }
        if a != ks[i] && ks.contains(a) {
            let j = choose|j: int| 0 <= j < ks.len() && ks[j] == a;
            let j2 = if j < i {
                j
            } else {
                j - 1
            };
            assert(ks2[j2] == a);
        }
    }
    assert forall|a: A| ks2.contains(a) implies #[trigger] paired(ks2, vs2)[a] == paired(
        ks,
        vs,
    ).remove(ks[i])[a] by {
        let j = ks2.index_of(a);
        let j1 = if j < i {
            j
        } else {
            j + 1
        };
        assert(ks[j1] == a);
        lemma_paired_index(ks, vs, j1);
        lemma_paired_index(ks2, vs2, j);
    }
    assert(paired(ks2, vs2) =~= paired(ks, vs).remove(ks[i]));
}

/// A finite map from keys to values.
pub struct KeyedMap<K: Key, V> {
    keys: Vec<K>,
    values: Vec<V>,
}

impl<K: Key, V> View for KeyedMap<K, V> {
    type V = Map<K::V, V>;

    closed spec fn view(&self) -> Map<K::V, V> {
        paired(self.key_views(), self.values@)
    }
}

impl<K: Key, V> KeyedMap<K, V> {
    /// The views of the keys, in the order in which they are stored.
    pub closed spec fn key_views(&self) -> Seq<K::V> {
        self.keys@.map_values(|k: K| k@)
    }

    /// Every key has a value beside it and no key occurs twice.
    pub closed spec fn wf(&self) -> bool {
        &&& self.keys@.len() == self.values@.len()
        &&& self.key_views().no_duplicates()
    }

    /// A well-formed map is finite, and holds as many entries as it has keys.
    pub proof fn lemma_finite(&self)
        requires
            self.wf(),
        ensures
            self@.dom().finite(),
            self@.dom().len() == self.key_views().len(),
            self@.dom() == self.key_views().to_set(),
    {
        let ks = self.key_views();
        assert(self@.dom() =~= ks.to_set());
        vstd::seq_lib::seq_to_set_is_finite(ks);
        ks.unique_seq_to_set();
    }

    /// The empty map.
    pub fn new() -> (m: Self)
        ensures
            m.wf(),
            m@ == Map::<K::V, V>::empty(),
    {
        let m = KeyedMap { keys: Vec::new(), values: Vec::new() };
        proof {
            assert(m.key_views() =~= Seq::<K::V>::empty());
            lemma_paired_empty::<K::V, V>();
        }
        m
    }

    /// The number of entries.
    pub fn len(&self) -> (n: usize)
        requires
            self.wf(),
        ensures
            n == self@.dom().len(),
            self@.dom().finite(),
    {
        proof {
            self.lemma_finite();
        }
        self.keys.len()
    }

    fn find(&self, key: &K) -> (r: Option<usize>)
        requires
            self.wf(),
        ensures
            match r {
                Some(i) => i < self.keys@.len() && self.key_views()[i as int] == key@,
                None => !self.key_views().contains(key@),
            },
    {
        let mut i: usize = 0;
        while i < self.keys.len()
            invariant
                i <= self.keys@.len(),
                forall|j: int| 0 <= j < i ==> self.key_views()[j] != key@,
            decreases self.keys@.len() - i,
        {
            if self.keys[i].same(key) {
                return Some(i);
            }
            i += 1;
        }
        None
    }

    /// Whether `key` has an entry.
    pub fn contains_key(&self, key: &K) -> (r: bool)
        requires
            self.wf(),
        ensures
            r == self@.dom().contains(key@),
    {
        match self.find(key) {
            Some(i) => {
                proof {
                    lemma_paired_index(self.key_views(), self.values@, i as int);
                }
                true
            },
            None => false,
        }
    }

    /// The value stored under `key`, if there is one.
    pub fn get(&self, key: &K) -> (r: Option<&V>)
        requires
            self.wf(),
        ensures
            match r {
                Some(v) => self@.dom().contains(key@) && *v == self@[key@],
                None => !self@.dom().contains(key@),
            },
    {
        match self.find(key) {
            Some(i) => {
                proof {
                    lemma_paired_index(self.key_views(), self.values@, i as int);
                }
                Some(&self.values[i])
            },
            None => None,
        }
    }

    /// Stores `value` under `key`, in place of what was stored there.
    pub fn insert(&mut self, key: K, value: V)
        requires
            old(self).wf(),
        ensures
            final(self).wf(),
            final(self)@ == old(self)@.insert(key@, value),
    {
        match self.find(&key) {
            Some(i) => {
                proof {
                    lemma_paired_update(self.key_views(), self.values@, i as int, value);
                }
                self.values[i] = value;
            },
            None => {
                proof {
                    lemma_paired_push(self.key_views(), self.values@, key@, value);
                    assert(self.keys@.push(key).map_values(|k: K| k@) =~= self.key_views().push(
                        key@,
                    ));
                }
                self.keys.push(key);
                self.values.push(value);
            },
        }
    }

    /// Takes the entry of `key` out of the map and returns its value.
    pub fn remove(&mut self, key: &K) -> (r: Option<V>)
        requires
            old(self).wf(),
        ensures
            final(self).wf(),
            final(self)@ == old(self)@.remove(key@),
            match r {
                Some(v) => old(self)@.dom().contains(key@) && v == old(self)@[key@],
                None => !old(self)@.dom().contains(key@),
            },
    {
        match self.find(key) {
            Some(i) => {
                proof {
                    lemma_paired_index(self.key_views(), self.values@, i as int);
                    lemma_paired_remove(self.key_views(), self.values@, i as int);
                    assert(self.keys@.remove(i as int).map_values(|k: K| k@)
                        =~= self.key_views().remove(i as int));
                }
                self.keys.remove(i);
                let v = self.values.remove(i);
                Some(v)
            },
            None => {
                proof {
                    assert(self@.remove(key@) =~= self@);
                }
                None
            },
        }
    }

    /// A copy of every key, each exactly once.
    pub fn keys(&self) -> (r: Vec<K>)
        requires
            self.wf(),
        ensures
            r@.map_values(|k: K| k@).no_duplicates(),
            r@.map_values(|k: K| k@).to_set() == self@.dom(),
            r@.len() == self@.dom().len(),
    {
        let mut out: Vec<K> = Vec::new();
        let mut i: usize = 0;
        while i < self.keys.len()
            invariant
                i <= self.keys@.len(),
                out@.len() == i,
                forall|j: int| 0 <= j < i ==> out@[j]@ == self.keys@[j]@,
            decreases self.keys@.len() - i,
        {
            out.push(self.keys[i].duplicate());
            i += 1;
        }
        proof {
            assert(out@.map_values(|k: K| k@) =~= self.key_views());
            self.lemma_finite();
        }
        out
    }
}

} // verus!
