//! Small finite maps and sets keyed by identifiers, kept as association lists
//! without duplicate keys.

use vstd::prelude::*;

verus! {

/// Keys that can be compared exactly.
pub trait IdKey: Copy + Sized {
    /// Whether the two keys are the same.
    fn same(&self, other: &Self) -> (r: bool)
        ensures
            r == (*self == *other),
    ;
}

impl IdKey for i64 {
    fn same(&self, other: &Self) -> (r: bool) {
        *self == *other
    }
}

impl IdKey for u128 {
    fn same(&self, other: &Self) -> (r: bool) {
        *self == *other
    }
}

/// A finite map from keys to values.
#[derive(Clone, Debug)]
pub struct IdMap<K, V> {
    entries: Vec<(K, V)>,
}

/// A finite set of keys.
#[derive(Clone, Debug)]
pub struct IdSet<K> {
    map: IdMap<K, ()>,
}

pub open spec fn keys_distinct<K, V>(s: Seq<(K, V)>) -> bool {
    forall|i: int, j: int| 0 <= i < j < s.len() ==> s[i].0 != s[j].0
}

pub open spec fn assoc_to_map<K, V>(s: Seq<(K, V)>) -> Map<K, V>
    decreases s.len(),
{
    if s.len() == 0 {
        Map::empty()
    } else {
        assoc_to_map(s.drop_last()).insert(s.last().0, s.last().1)
    }
}

pub proof fn lemma_assoc_dom<K, V>(s: Seq<(K, V)>)
    ensures
        forall|k: K| #[trigger]
            assoc_to_map(s).dom().contains(k) <==> exists|i: int| 0 <= i < s.len() && s[i].0 == k,
    decreases s.len(),
{
    if s.len() > 0 {
        let t = s.drop_last();
        lemma_assoc_dom(t);
        assert forall|k: K| #[trigger] assoc_to_map(s).dom().contains(k) <==> exists|i: int|
            0 <= i < s.len() && s[i].0 == k by {
            if k == s.last().0 {
                assert(s[s.len() - 1].0 == k);
            } else {
                assert(assoc_to_map(s).dom().contains(k) == assoc_to_map(t).dom().contains(k));
                if assoc_to_map(t).dom().contains(k) {
                    let i = choose|i: int| 0 <= i < t.len() && t[i].0 == k;
                    assert(s[i].0 == k);
                }
                if exists|i: int| 0 <= i < s.len() && s[i].0 == k {
                    let i = choose|i: int| 0 <= i < s.len() && s[i].0 == k;
                    assert(t[i].0 == k);
                }
            }
        }
    }
}

pub proof fn lemma_assoc_index<K, V>(s: Seq<(K, V)>, i: int)
    requires
        keys_distinct(s),
        0 <= i < s.len(),
    ensures
        assoc_to_map(s).dom().contains(s[i].0),
        assoc_to_map(s)[s[i].0] == s[i].1,
    decreases s.len(),
{
    lemma_assoc_dom(s);
    if i < s.len() - 1 {
        assert(s.drop_last()[i] == s[i]);
        lemma_assoc_index(s.drop_last(), i);
    }
}

proof fn lemma_assoc_remove<K, V>(s: Seq<(K, V)>, i: int)
    requires
        keys_distinct(s),
        0 <= i < s.len(),
    ensures
        keys_distinct(s.remove(i)),
        assoc_to_map(s.remove(i)) == assoc_to_map(s).remove(s[i].0),
{
    let t = s.remove(i);
    lemma_assoc_dom(s);
    lemma_assoc_dom(t);
    assert forall|k: K| #[trigger] assoc_to_map(t).dom().contains(k) <==> assoc_to_map(s).remove(
        s[i].0,
    ).dom().contains(k) by {
        if assoc_to_map(t).dom().contains(k) {
            let j = choose|j: int| 0 <= j < t.len() && t[j].0 == k;
            if j < i {
                assert(s[j].0 == k);
            } else {
                assert(s[j + 1].0 == k);
            }
        }
        if assoc_to_map(s).remove(s[i].0).dom().contains(k) {
            let j = choose|j: int| 0 <= j < s.len() && s[j].0 == k;
            if j < i {
                assert(t[j].0 == k);
            } else {
                assert(t[j - 1].0 == k);
            }
        }
    }
    assert forall|k: K| #[trigger] assoc_to_map(t).dom().contains(k) implies assoc_to_map(t)[k]
        == assoc_to_map(s)[k] by {
        let j = choose|j: int| 0 <= j < t.len() && t[j].0 == k;
        lemma_assoc_index(t, j);
        if j < i {
            lemma_assoc_index(s, j);
        } else {
            lemma_assoc_index(s, j + 1);
        }
    }
    assert(assoc_to_map(t) =~= assoc_to_map(s).remove(s[i].0));
}

impl<K: IdKey, V> IdMap<K, V> {
    /// The map's contents.
    pub closed spec fn spec_map(&self) -> Map<K, V> {
        assoc_to_map(self.entries@)
    }

    /// No key occurs twice.
    pub closed spec fn wf(&self) -> bool {
        keys_distinct(self.entries@)
    }

    /// The empty map.
    pub fn new() -> (m: Self)
        ensures
            m.wf(),
            m.spec_map() == Map::<K, V>::empty(),
    {
        IdMap { entries: Vec::new() }
    }

    fn find(&self, k: &K) -> (r: Option<usize>)
        requires
            self.wf(),
        ensures
            r matches Some(i) ==> i < self.entries@.len() && self.entries@[i as int].0 == *k,
            r is None ==> forall|i: int| 0 <= i < self.entries@.len() ==> self.entries@[i].0 != *k,
    {
        let mut i: usize = 0;
        while i < self.entries.len()
            invariant
                i <= self.entries@.len(),
                forall|j: int| 0 <= j < i ==> self.entries@[j].0 != *k,
            decreases self.entries@.len() - i,
        {
            if self.entries[i].0.same(k) {
                return Some(i);
            }
            i = i + 1;
        }
        None
    }

    /// Whether the key is present.
    pub fn contains_key(&self, k: &K) -> (r: bool)
        requires
            self.wf(),
        ensures
            r == self.spec_map().dom().contains(*k),
    {
        proof {
            lemma_assoc_dom(self.entries@);
        }
        match self.find(k) {
            Some(_) => true,
            None => false,
        }
    }

    /// The value at the key, if any.
    pub fn get(&self, k: &K) -> (r: Option<&V>)
        requires
            self.wf(),
        ensures
            r is Some <==> self.spec_map().dom().contains(*k),
            r matches Some(v) ==> *v == self.spec_map()[*k],
    {
        proof {
            lemma_assoc_dom(self.entries@);
        }
        match self.find(k) {
            Some(i) => {
                proof {
                    lemma_assoc_index(self.entries@, i as int);
                }
                Some(&self.entries[i].1)
            },
            None => None,
        }
    }

    /// Removes the key; returns its value if it was present.
    pub fn remove(&mut self, k: &K) -> (r: Option<V>)
        requires
            old(self).wf(),
        ensures
            final(self).wf(),
            final(self).spec_map() == old(self).spec_map().remove(*k),
            r is Some <==> old(self).spec_map().dom().contains(*k),
            r matches Some(v) ==> v == old(self).spec_map()[*k],
    {
        proof {
            lemma_assoc_dom(self.entries@);
        }
        match self.find(k) {
            Some(i) => {
                proof {
                    lemma_assoc_index(self.entries@, i as int);
                    lemma_assoc_remove(self.entries@, i as int);
                }
                let (_, v) = self.entries.remove(i);
                Some(v)
            },
            None => {
                assert(old(self).spec_map().remove(*k) =~= old(self).spec_map());
                None
            },
        }
    }

    /// Sets the value at the key, replacing any earlier value.
    pub fn insert(&mut self, k: K, v: V)
        requires
            old(self).wf(),
        ensures
            final(self).wf(),
            final(self).spec_map() == old(self).spec_map().insert(k, v),
    {
        let _ = self.remove(&k);
        let ghost before = self.entries@;
        proof {
            lemma_assoc_dom(before);
            assert forall|i: int| 0 <= i < before.len() implies before[i].0 != k by {
                if before[i].0 == k {
                    assert(assoc_to_map(before).dom().contains(k));
                }
            }
        }
        self.entries.push((k, v));
        assert(self.entries@.drop_last() == before);
        assert(old(self).spec_map().remove(k).insert(k, v) =~= old(self).spec_map().insert(k, v));
    }

    /// The number of keys.
    pub fn len(&self) -> (n: usize)
        requires
            self.wf(),
        ensures
            n == self.spec_map().dom().len(),
    {
        proof {
            self.lemma_len();
        }
        self.entries.len()
    }

    proof fn lemma_len(&self)
        requires
            self.wf(),
        ensures
            self.spec_map().dom().finite(),
            self.spec_map().dom().len() == self.entries@.len(),
    {
        lemma_assoc_len(self.entries@);
    }

    /// The entries, in insertion order.
    pub fn entries(&self) -> (e: &Vec<(K, V)>)
        requires
            self.wf(),
        ensures
            keys_distinct(e@),
            assoc_to_map(e@) == self.spec_map(),
    {
        &self.entries
    }
}

proof fn lemma_assoc_len<K, V>(s: Seq<(K, V)>)
    requires
        keys_distinct(s),
    ensures
        assoc_to_map(s).dom().finite(),
        assoc_to_map(s).dom().len() == s.len(),
    decreases s.len(),
{
    if s.len() > 0 {
        lemma_assoc_len(s.drop_last());
        lemma_assoc_dom(s.drop_last());
        assert(!assoc_to_map(s.drop_last()).dom().contains(s.last().0));
    }
}

impl<K: IdKey> IdSet<K> {
    /// The set's contents.
    pub closed spec fn spec_set(&self) -> Set<K> {
        self.map.spec_map().dom()
    }

    /// No key occurs twice.
    pub closed spec fn wf(&self) -> bool {
        self.map.wf()
    }

    /// The empty set.
    pub fn new() -> (s: Self)
        ensures
            s.wf(),
            s.spec_set() == Set::<K>::empty(),
    {
        IdSet { map: IdMap::new() }
    }

    /// Whether the key is present.
    pub fn contains(&self, k: &K) -> (r: bool)
        requires
            self.wf(),
        ensures
            r == self.spec_set().contains(*k),
    {
        self.map.contains_key(k)
    }

    /// Adds the key.
    pub fn insert(&mut self, k: K)
        requires
            old(self).wf(),
        ensures
            final(self).wf(),
            final(self).spec_set() == old(self).spec_set().insert(k),
    {
        self.map.insert(k, ());
        assert(self.spec_set() =~= old(self).spec_set().insert(k));
    }

    /// Removes the key.
    pub fn remove(&mut self, k: &K)
        requires
            old(self).wf(),
        ensures
            final(self).wf(),
            final(self).spec_set() == old(self).spec_set().remove(*k),
    {
        let _ = self.map.remove(k);
        assert(self.spec_set() =~= old(self).spec_set().remove(*k));
    }

    /// The number of keys.
    pub fn len(&self) -> (n: usize)
        requires
            self.wf(),
        ensures
            n == self.spec_set().len(),
    {
        self.map.len()
    }

    /// Whether the set is empty.
    pub fn is_empty(&self) -> (r: bool)
        requires
            self.wf(),
        ensures
            r == (self.spec_set() == Set::<K>::empty()),
    {
        proof {
            self.map.lemma_len();
            if self.spec_set().len() != 0 {
                assert(self.spec_set() != Set::<K>::empty());
            }
        }
        self.map.len() == 0
    }

    /// The keys, in insertion order, each once.
    pub fn to_vec(&self) -> (v: Vec<K>)
        requires
            self.wf(),
        ensures
            forall|i: int, j: int| 0 <= i < j < v@.len() ==> v@[i] != v@[j],
            forall|k: K| #[trigger] v@.contains(k) <==> self.spec_set().contains(k),
    {
        let e = self.map.entries();
        proof {
            lemma_assoc_dom(e@);
        }
        let mut v: Vec<K> = Vec::new();
        let mut i: usize = 0;
        while i < e.len()
            invariant
                keys_distinct(e@),
                i <= e@.len(),
                v@.len() == i,
                forall|j: int| 0 <= j < i ==> v@[j] == e@[j].0,
            decreases e@.len() - i,
        {
            v.push(e[i].0);
            i = i + 1;
        }
        assert forall|k: K| #[trigger] v@.contains(k) <==> self.spec_set().contains(k) by {
            if v@.contains(k) {
                let j = choose|j: int| 0 <= j < v@.len() && v@[j] == k;
                assert(e@[j].0 == k);
            }
            if self.spec_set().contains(k) {
                let j = choose|j: int| 0 <= j < e@.len() && e@[j].0 == k;
                assert(v@[j] == k);
            }
        }
        v
    }
}

} // verus!
