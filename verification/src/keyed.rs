//! Tables keyed by strings or pairs, looked up by the view of their key.
use vstd::prelude::*;

verus! {

/// Keys that can be compared and copied in executable code.
pub trait TableKey: View + Sized {
    fn same_key(&self, other: &Self) -> (r: bool)
        ensures
            r == (self@ == other@),
    ;

    fn copy_key(&self) -> (r: Self)
        ensures
            r == *self,
    ;
}

impl TableKey for String {
    fn same_key(&self, other: &Self) -> (r: bool) {
        *self == *other
    }

    fn copy_key(&self) -> (r: Self) {
        self.clone()
    }
}

impl TableKey for (u64, String) {
    fn same_key(&self, other: &Self) -> (r: bool) {
        self.0 == other.0 && self.1 == other.1
    }

    fn copy_key(&self) -> (r: Self) {
        (self.0, self.1.clone())
    }
}

impl TableKey for (String, String) {
    fn same_key(&self, other: &Self) -> (r: bool) {
        self.0 == other.0 && self.1 == other.1
    }

    fn copy_key(&self) -> (r: Self) {
        (self.0.clone(), self.1.clone())
    }
}

/// A map from keys to values, looked up by the view of the key; its entries
/// stay in the order in which their keys first arrived.
pub struct KeyTable<K, V> {
    entries: Vec<(K, V)>,
}

impl<K: TableKey, V: View> KeyTable<K, V> {
    pub closed spec fn entries(&self) -> Seq<(K, V)> {
        self.entries@
    }

    /// The views of the keys, in entry order.
    pub open spec fn key_views(&self) -> Seq<K::V> {
        self.entries().map_values(|e: (K, V)| e.0@)
    }

    pub open spec fn wf(&self) -> bool {
        forall|i: int, j: int|
            0 <= i < j < self.entries().len() ==> self.entries()[i].0@ != self.entries()[j].0@
    }

    pub open spec fn view(&self) -> Map<K::V, V::V> {
        Map::new(
            |k: K::V| exists|i: int| 0 <= i < self.entries().len() && self.entries()[i].0@ == k,
            |k: K::V|
                self.entries()[choose|i: int|
                    0 <= i < self.entries().len() && self.entries()[i].0@ == k].1@,
        )
    }

    /// The entry at index `i` is the one the view has for its key.
    pub proof fn lemma_entry(&self, i: int)
        requires
            self.wf(),
            0 <= i < self.entries().len(),
        ensures
            self@.contains_key(self.entries()[i].0@),
            self@[self.entries()[i].0@] == self.entries()[i].1@,
    {
        let s = self.entries();
        let k = s[i].0@;
        assert(exists|j: int| 0 <= j < s.len() && s[j].0@ == k);
        let c = choose|j: int| 0 <= j < s.len() && s[j].0@ == k;
        if c != i {
            if c < i {
                assert(s[c].0@ != s[i].0@);
            } else {
                assert(s[i].0@ != s[c].0@);
            }
        }
    }

    /// The keys of the view are exactly the views of the entry keys.
    pub proof fn lemma_keys(&self)
        requires
            self.wf(),
        ensures
            self.key_views().to_set() == self@.dom(),
            self.key_views().no_duplicates(),
    {
        let kv = self.key_views();
        assert forall|k: K::V| #[trigger] kv.to_set().contains(k) == self@.dom().contains(k) by {
            if kv.to_set().contains(k) {
                let i = choose|i: int| 0 <= i < kv.len() && kv[i] == k;
                assert(self.entries()[i].0@ == k);
            }
            if self@.dom().contains(k) {
                let i = choose|i: int| 0 <= i < self.entries().len() && self.entries()[i].0@ == k;
                assert(kv[i] == k);
            }
        }
        assert(kv.to_set() =~= self@.dom());
    }

    pub fn new() -> (t: Self)
        ensures
            t.wf(),
            t@ == Map::<K::V, V::V>::empty(),
    {
        let t = KeyTable { entries: Vec::new() };
        assert(t@ =~= Map::<K::V, V::V>::empty());
        t
    }

    /// The index of the entry for `k`.
    fn find(&self, k: &K) -> (r: Option<usize>)
        requires
            self.wf(),
        ensures
            match r {
                Some(i) => i < self.entries().len() && self.entries()[i as int].0@ == k@,
                None => !self@.contains_key(k@),
            },
    {
        let n = self.entries.len();
        let mut i: usize = 0;
        while i < n
            invariant
                n == self.entries().len(),
                i <= n,
                forall|j: int| 0 <= j < i ==> self.entries()[j].0@ != k@,
            decreases n - i,
        {
            if self.entries[i].0.same_key(k) {
                return Some(i);
            }
            i = i + 1;
        }
        None
    }

    /// The value stored under `k`, if any.
    pub fn get(&self, k: &K) -> (r: Option<&V>)
        requires
            self.wf(),
        ensures
            match r {
                Some(v) => self@.contains_key(k@) && v@ == self@[k@],
                None => !self@.contains_key(k@),
            },
    {
        match self.find(k) {
            Some(i) => {
                proof {
                    self.lemma_entry(i as int);
                }
                Some(&self.entries[i].1)
            },
            None => None,
        }
    }

    /// Whether `k` has an entry.
    pub fn contains(&self, k: &K) -> (r: bool)
        requires
            self.wf(),
        ensures
            r == self@.contains_key(k@),
    {
        match self.find(k) {
            Some(i) => {
                proof {
                    self.lemma_entry(i as int);
                }
                true
            },
            None => false,
        }
    }

    /// Stores `v` under `k`, replacing what was there.
    pub fn insert(&mut self, k: K, v: V)
        requires
            old(self).wf(),
        ensures
            final(self).wf(),
            final(self)@ == old(self)@.insert(k@, v@),
    {
        let ghost old_s = self.entries();
        let ghost kv = k@;
        let ghost vv = v@;
        match self.find(&k) {
            Some(i) => {
                self.entries.set(i, (k, v));
                let ghost s = self.entries();
                assert(s =~= old_s.update(i as int, s[i as int]));
                assert(self.wf());
                assert forall|key: K::V| #[trigger] self@.contains_key(key) == old(
                    self,
                )@.insert(kv, vv).contains_key(key) by {
                    if key != kv && old(self)@.contains_key(key) {
                        let j = choose|j: int| 0 <= j < old_s.len() && old_s[j].0@ == key;
                        assert(s[j].0@ == key);
                    }
                    if self@.contains_key(key) && key != kv {
                        let j = choose|j: int| 0 <= j < s.len() && s[j].0@ == key;
                        assert(old_s[j].0@ == key);
                    }
                    if key == kv {
                        assert(s[i as int].0@ == kv);
                    }
                }
                assert forall|key: K::V| #[trigger] self@.contains_key(key) implies self@[key]
                    == old(self)@.insert(kv, vv)[key] by {
                    let j = choose|j: int| 0 <= j < s.len() && s[j].0@ == key;
                    self.lemma_entry(j);
                    if key != kv {
                        assert(old_s[j].0@ == key);
                        old(self).lemma_entry(j);
                    }
                }
                assert(self@ =~= old(self)@.insert(kv, vv));
            },
            None => {
                self.entries.push((k, v));
                let ghost s = self.entries();
                let ghost n = old_s.len() as int;
                assert(s =~= old_s.push(s[n]));
                assert forall|a: int, b: int| 0 <= a < b < s.len() implies s[a].0@ != s[b].0@ by {
                    if b == n {
                        assert(s[a] == old_s[a]);
                        if s[a].0@ == kv {
                            assert(old(self)@.contains_key(kv));
                        }
                    }
                }
                assert(self.wf());
                assert forall|key: K::V| #[trigger] self@.contains_key(key) == old(
                    self,
                )@.insert(kv, vv).contains_key(key) by {
                    if key != kv && old(self)@.contains_key(key) {
                        let j = choose|j: int| 0 <= j < old_s.len() && old_s[j].0@ == key;
                        assert(s[j].0@ == key);
                    }
                    if self@.contains_key(key) && key != kv {
                        let j = choose|j: int| 0 <= j < s.len() && s[j].0@ == key;
                        assert(old_s[j].0@ == key);
                    }
                    if key == kv {
                        assert(s[n].0@ == kv);
                    }
                }
                assert forall|key: K::V| #[trigger] self@.contains_key(key) implies self@[key]
                    == old(self)@.insert(kv, vv)[key] by {
                    let j = choose|j: int| 0 <= j < s.len() && s[j].0@ == key;
                    self.lemma_entry(j);
                    if key != kv {
                        assert(old_s[j].0@ == key);
                        old(self).lemma_entry(j);
                    }
                }
                assert(self@ =~= old(self)@.insert(kv, vv));
            },
        }
    }

    /// Removes the entry under `k`, if there is one.
    pub fn remove(&mut self, k: &K)
        requires
            old(self).wf(),
        ensures
            final(self).wf(),
            final(self)@ == old(self)@.remove(k@),
    {
        let ghost old_s = self.entries();
        let ghost kv = k@;
        match self.find(k) {
            Some(i) => {
                let _ = self.entries.remove(i);
                let ghost s = self.entries();
                assert(s =~= old_s.subrange(0, i as int) + old_s.subrange(
                    i + 1,
                    old_s.len() as int,
                ));
                assert forall|a: int, b: int| 0 <= a < b < s.len() implies s[a].0@ != s[b].0@ by {
                    if b < i {
                        assert(s[a] == old_s[a] && s[b] == old_s[b]);
                    } else if a < i {
                        assert(s[a] == old_s[a] && s[b] == old_s[b + 1]);
                    } else {
                        assert(s[a] == old_s[a + 1] && s[b] == old_s[b + 1]);
                    }
                }
                assert(self.wf());
                assert forall|key: K::V| #[trigger] self@.contains_key(key) == old(
                    self,
                )@.remove(kv).contains_key(key) by {
                    if key != kv && old(self)@.contains_key(key) {
                        let j = choose|j: int| 0 <= j < old_s.len() && old_s[j].0@ == key;
                        if j < i {
                            assert(s[j].0@ == key);
                        } else {
                            assert(j != i);
                            assert(s[j - 1].0@ == key);
                        }
                    }
                    if self@.contains_key(key) {
                        let j = choose|j: int| 0 <= j < s.len() && s[j].0@ == key;
                        if j < i {
                            assert(old_s[j].0@ == key);
                        } else {
                            assert(old_s[j + 1].0@ == key);
                        }
                    }
                }
                assert forall|key: K::V| #[trigger] self@.contains_key(key) implies self@[key]
                    == old(self)@.remove(kv)[key] by {
                    let j = choose|j: int| 0 <= j < s.len() && s[j].0@ == key;
                    self.lemma_entry(j);
                    if j < i {
                        assert(old_s[j].0@ == key);
                        old(self).lemma_entry(j);
                    } else {
                        assert(old_s[j + 1].0@ == key);
                        old(self).lemma_entry(j + 1);
                    }
                }
                assert(self@ =~= old(self)@.remove(kv));
            },
            None => {
                assert(self@ =~= old(self)@.remove(kv));
            },
        }
    }

    /// Copies of the keys, in entry order.
    pub fn keys(&self) -> (r: Vec<K>)
        requires
            self.wf(),
        ensures
            r@.map_values(|x: K| x@) == self.key_views(),
            r@.map_values(|x: K| x@).to_set() == self@.dom(),
            r@.map_values(|x: K| x@).no_duplicates(),
    {
        let mut r: Vec<K> = Vec::new();
        let n = self.entries.len();
        let mut i: usize = 0;
        while i < n
            invariant
                n == self.entries().len(),
                i <= n,
                r.len() == i,
                r@.map_values(|x: K| x@) == self.key_views().take(i as int),
            decreases n - i,
        {
            let ghost before = r@;
            let key = self.entries[i].0.copy_key();
            assert(key@ == self.key_views()[i as int]);
            r.push(key);
            assert forall|j: int| 0 <= j < i implies r@[j]@ == self.key_views()[j] by {
                assert(r@[j] == before[j]);
                assert(before.map_values(|x: K| x@)[j] == self.key_views().take(i as int)[j]);
            }
            assert(r@.map_values(|x: K| x@) =~= self.key_views().take(i + 1));
            i = i + 1;
        }
        assert(self.key_views().take(n as int) =~= self.key_views());
        proof {
            self.lemma_keys();
        }
        r
    }
}

} // verus!
