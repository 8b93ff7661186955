//! Tables keyed by `u64` that keep their entries in ascending key order,
//! as a store of records keyed by id and walked by ascending id.
use vstd::prelude::*;

verus! {

/// Values that can hand out an identical copy of themselves.
pub trait Duplicate: View + Sized {
    fn duplicate(&self) -> (r: Self)
        ensures
            r@ == self@,
    ;
}

/// Whether key `k` comes strictly after the optional starting key.
pub open spec fn key_after(start: Option<u64>, k: u64) -> bool {
    match start {
        Some(s) => k > s,
        None => true,
    }
}

/// The first `limit` elements of `s`, or all of them when there are fewer.
pub open spec fn cap<T>(s: Seq<T>, limit: nat) -> Seq<T> {
    if s.len() <= limit {
        s
    } else {
        s.take(limit as int)
    }
}

/// The values of the entries of `s` whose key comes after `start` and whose
/// value satisfies `sp`, in the order of `s`.
pub open spec fn selected<V: View>(
    s: Seq<(u64, V)>,
    start: Option<u64>,
    sp: spec_fn(V::V) -> bool,
) -> Seq<V::V> {
    s.filter(|e: (u64, V)| key_after(start, e.0) && sp(e.1@)).map_values(|e: (u64, V)| e.1@)
}

/// Whether the keys of `s` strictly increase.
pub open spec fn strictly_sorted<V>(s: Seq<(u64, V)>) -> bool {
    forall|i: int, j: int| 0 <= i < j < s.len() ==> s[i].0 < s[j].0
}

/// The map that a sequence of entries with distinct keys stands for.
pub open spec fn entries_map<V: View>(s: Seq<(u64, V)>) -> Map<u64, V::V> {
    Map::new(
        |k: u64| exists|i: int| 0 <= i < s.len() && s[i].0 == k,
        |k: u64| s[choose|i: int| 0 <= i < s.len() && s[i].0 == k].1@,
    )
}

/// The keys of the entries that `selected` keeps, in the order of `s`.
pub open spec fn selected_keys<V: View>(
    s: Seq<(u64, V)>,
    start: Option<u64>,
    sp: spec_fn(V::V) -> bool,
) -> Seq<u64> {
    s.filter(|e: (u64, V)| key_after(start, e.0) && sp(e.1@)).map_values(|e: (u64, V)| e.0)
}

/// In sorted entries, the entry at each index is what the map has for its key.
pub proof fn lemma_entries_map_at<V: View>(s: Seq<(u64, V)>, i: int)
    requires
        strictly_sorted(s),
        0 <= i < s.len(),
    ensures
        entries_map(s).contains_key(s[i].0),
        entries_map(s)[s[i].0] == s[i].1@,
{
    let k = s[i].0;
    assert(exists|j: int| 0 <= j < s.len() && s[j].0 == k);
    let c = choose|j: int| 0 <= j < s.len() && s[j].0 == k;
    if c < i {
        assert(s[c].0 < s[i].0);
    } else if c > i {
        assert(s[i].0 < s[c].0);
    }
}

/// Dropping the last of sorted entries keeps what the map has for every
/// other key.
proof fn lemma_entries_map_drop_last<V: View>(s: Seq<(u64, V)>)
    requires
        strictly_sorted(s),
        s.len() > 0,
    ensures
        forall|k: u64|
            #[trigger] entries_map(s.drop_last()).contains_key(k) ==> entries_map(s).contains_key(k)
                && entries_map(s)[k] == entries_map(s.drop_last())[k] && k < s.last().0,
{
    let init = s.drop_last();
    assert(strictly_sorted(init));
    assert forall|k: u64| #[trigger] entries_map(init).contains_key(k) implies entries_map(s).contains_key(k)
        && entries_map(s)[k] == entries_map(init)[k] && k < s.last().0 by {
        let x = choose|x: int| 0 <= x < init.len() && init[x].0 == k;
        assert(s[x] == init[x]);
        lemma_entries_map_at(init, x);
        lemma_entries_map_at(s, x);
    }
}

/// What `selected` gives of sorted entries, read over the map they stand for:
/// the values at the keys after `start` whose values satisfy `sp`, each key
/// once, in ascending key order, and no other.
pub proof fn lemma_selected_in_key_order<V: View>(
    s: Seq<(u64, V)>,
    start: Option<u64>,
    sp: spec_fn(V::V) -> bool,
)
    requires
        strictly_sorted(s),
    ensures
        selected(s, start, sp).len() == selected_keys(s, start, sp).len(),
        forall|i: int|
            #![trigger selected_keys(s, start, sp)[i]]
            0 <= i < selected_keys(s, start, sp).len() ==> entries_map(s).contains_key(
                selected_keys(s, start, sp)[i],
            ) && key_after(start, selected_keys(s, start, sp)[i]) && sp(
                entries_map(s)[selected_keys(s, start, sp)[i]],
            ) && selected(s, start, sp)[i] == entries_map(s)[selected_keys(s, start, sp)[i]],
        forall|i: int, j: int|
            0 <= i < j < selected_keys(s, start, sp).len() ==> selected_keys(s, start, sp)[i]
                < selected_keys(s, start, sp)[j],
        forall|k: u64|
            entries_map(s).contains_key(k) && key_after(start, k) && sp(entries_map(s)[k])
                ==> #[trigger] selected_keys(s, start, sp).contains(k),
    decreases s.len(),
{
    let q = |e: (u64, V)| key_after(start, e.0) && sp(e.1@);
    let kf = |e: (u64, V)| e.0;
    let vf = |e: (u64, V)| e.1@;
    if s.len() == 0 {
        assert(s.filter(q) =~= Seq::<(u64, V)>::empty()) by {
            reveal(Seq::filter);
        }
        assert(selected_keys(s, start, sp).len() == 0);
        assert forall|k: u64| !entries_map(s).contains_key(k) by {}
    } else {
        let init = s.drop_last();
        let last = s.last();
        assert(strictly_sorted(init));
        lemma_selected_in_key_order(init, start, sp);
        lemma_entries_map_drop_last(s);
        lemma_entries_map_at(s, s.len() - 1);
        assert(s =~= init.push(last));
        init.lemma_filter_push(last, q);
        let fi = init.filter(q);
        let ki = selected_keys(init, start, sp);
        let vi = selected(init, start, sp);
        let mi = entries_map(init);
        let m = entries_map(s);
        assert(ki == fi.map_values(kf));
        assert(vi == fi.map_values(vf));
        if q(last) {
            assert(s.filter(q) == fi.push(last));
            assert(selected_keys(s, start, sp) =~= ki.push(last.0));
            assert(selected(s, start, sp) =~= vi.push(last.1@));
        } else {
            assert(s.filter(q) == fi);
            assert(selected_keys(s, start, sp) == ki);
            assert(selected(s, start, sp) == vi);
        }
        let ks = selected_keys(s, start, sp);
        let vs = selected(s, start, sp);
        assert forall|i: int|
            #![trigger selected_keys(s, start, sp)[i]]
            0 <= i < selected_keys(s, start, sp).len() implies m.contains_key(
                selected_keys(s, start, sp)[i],
            ) && key_after(start, selected_keys(s, start, sp)[i]) && sp(
                m[selected_keys(s, start, sp)[i]],
            ) && selected(s, start, sp)[i] == m[selected_keys(s, start, sp)[i]] by {
            if i < ki.len() {
                assert(ki[i] == ks[i] && vi[i] == vs[i]);
                assert(mi.contains_key(ki[i]));
            } else {
                assert(ks[i] == last.0 && vs[i] == last.1@);
            }
        }
        assert forall|i: int, j: int| 0 <= i < j < ks.len() implies ks[i] < ks[j] by {
            if j < ki.len() {
                assert(ks[i] == ki[i] && ks[j] == ki[j]);
            } else {
                assert(ks[i] == ki[i]);
                assert(mi.contains_key(ki[i]));
            }
        }
        assert forall|k: u64|
            m.contains_key(k) && key_after(start, k) && sp(m[k]) implies #[trigger] ks.contains(k) by {
            let x = choose|x: int| 0 <= x < s.len() && s[x].0 == k;
            if x < init.len() {
                assert(s[x] == init[x]);
                lemma_entries_map_at(init, x);
                assert(ki.contains(k));
                let i = choose|i: int| 0 <= i < ki.len() && ki[i] == k;
                assert(ks[i] == k);
            } else {
                assert(ks[ks.len() - 1] == last.0);
            }
        }
    }
}

/// A page of `selected` read over the map that sorted entries stand for:
/// the values at strictly increasing keys, each after `start` and accepted by
/// `sp`, such that every other accepted key after `start` comes after the
/// last of them and only when the page is full.
pub proof fn lemma_page_in_key_order<V: View>(
    s: Seq<(u64, V)>,
    start: Option<u64>,
    sp: spec_fn(V::V) -> bool,
    limit: nat,
)
    requires
        strictly_sorted(s),
    ensures
        ({
            let m = entries_map(s);
            let page = cap(selected(s, start, sp), limit);
            exists|ks: Seq<u64>|
                #![trigger ks.len()]
                ks.len() == page.len() && (forall|i: int, j: int|
                    0 <= i < j < ks.len() ==> ks[i] < ks[j]) && (forall|i: int|
                    #![trigger ks[i]]
                    0 <= i < ks.len() ==> m.contains_key(ks[i]) && key_after(start, ks[i]) && sp(
                        m[ks[i]],
                    ) && page[i] == m[ks[i]]) && (forall|k: u64|
                    m.contains_key(k) && key_after(start, k) && sp(m[k]) ==> #[trigger] ks.contains(k)
                        || (page.len() == limit && (ks.len() == 0 || k > ks[ks.len() - 1])))
        }),
{
    lemma_selected_in_key_order(s, start, sp);
    let m = entries_map(s);
    let all = selected_keys(s, start, sp);
    let sel = selected(s, start, sp);
    let page = cap(sel, limit);
    if sel.len() <= limit {
        assert(page == sel);
        let ks = all;
        assert forall|i: int| #![trigger ks[i]] 0 <= i < ks.len() implies m.contains_key(ks[i])
            && key_after(start, ks[i]) && sp(m[ks[i]]) && page[i] == m[ks[i]] by {
            assert(all[i] == ks[i]);
        }
        assert(ks.len() == page.len());
    } else {
        let ks = all.take(limit as int);
        assert(page =~= sel.take(limit as int));
        assert forall|i: int| #![trigger ks[i]] 0 <= i < ks.len() implies m.contains_key(ks[i])
            && key_after(start, ks[i]) && sp(m[ks[i]]) && page[i] == m[ks[i]] by {
            assert(ks[i] == all[i]);
            assert(page[i] == sel[i]);
        }
        assert forall|i: int, j: int| 0 <= i < j < ks.len() implies ks[i] < ks[j] by {
            assert(ks[i] == all[i] && ks[j] == all[j]);
        }
        assert forall|k: u64|
            m.contains_key(k) && key_after(start, k) && sp(m[k]) implies #[trigger] ks.contains(k) || (
            page.len() == limit && (ks.len() == 0 || k > ks[ks.len() - 1])) by {
            assert(all.contains(k));
            let i = choose|i: int| 0 <= i < all.len() && all[i] == k;
            if i < limit {
                assert(ks[i] == k);
            } else if limit > 0 {
                assert(ks[ks.len() - 1] == all[limit - 1]);
                assert(all[limit - 1] < all[i]);
            } else {
                assert(page.len() == 0);
            }
        }
        assert(ks.len() == page.len());
    }
}

/// A map from `u64` keys to values, kept as entries in ascending key order.
pub struct IdTable<V> {
    entries: Vec<(u64, V)>,
}

impl<V: View> IdTable<V> {
    /// The entries in ascending key order.
    pub closed spec fn entries(&self) -> Seq<(u64, V)> {
        self.entries@
    }

    pub open spec fn wf(&self) -> bool {
        strictly_sorted(self.entries())
    }

    pub open spec fn view(&self) -> Map<u64, V::V> {
        entries_map(self.entries())
    }

    /// In a sorted table, the entry at index `i` is the one the view has for its key.
    pub proof fn lemma_entry(&self, i: int)
        requires
            self.wf(),
            0 <= i < self.entries().len(),
        ensures
            self@.contains_key(self.entries()[i].0),
            self@[self.entries()[i].0] == self.entries()[i].1@,
    {
        let s = self.entries();
        let k = s[i].0;
        assert(exists|j: int| 0 <= j < s.len() && s[j].0 == k);
        let c = choose|j: int| 0 <= j < s.len() && s[j].0 == k;
        if c < i {
            assert(s[c].0 < s[i].0);
        } else if c > i {
            assert(s[i].0 < s[c].0);
        }
    }

    pub fn new() -> (t: Self)
        ensures
            t.wf(),
            t@ == Map::<u64, V::V>::empty(),
            t.entries() == Seq::<(u64, V)>::empty(),
    {
        let t = IdTable { entries: Vec::new() };
        assert(t@ =~= Map::<u64, V::V>::empty());
        t
    }

    /// The number of entries.
    pub fn len(&self) -> (n: usize)
        ensures
            n == self.entries().len(),
    {
        self.entries.len()
    }

    /// The index of the first entry whose key is not below `k`.
    fn lower_bound(&self, k: u64) -> (i: usize)
        requires
            self.wf(),
        ensures
            i <= self.entries().len(),
            forall|j: int| 0 <= j < i ==> self.entries()[j].0 < k,
            forall|j: int| i <= j < self.entries().len() ==> self.entries()[j].0 >= k,
    {
        let mut lo: usize = 0;
        let mut hi: usize = self.entries.len();
        while lo < hi
            invariant
                self.wf(),
                lo <= hi <= self.entries().len(),
                forall|j: int| 0 <= j < lo ==> self.entries()[j].0 < k,
                forall|j: int| hi <= j < self.entries().len() ==> self.entries()[j].0 >= k,
            decreases hi - lo,
        {
            let mid = lo + (hi - lo) / 2;
            if self.entries[mid].0 < k {
                lo = mid + 1;
            } else {
                hi = mid;
            }
        }
        lo
    }

    /// The value stored under `k`, if any.
    pub fn get(&self, k: u64) -> (r: Option<&V>)
        requires
            self.wf(),
        ensures
            match r {
                Some(v) => self@.contains_key(k) && v@ == self@[k],
                None => !self@.contains_key(k),
            },
    {
        let i = self.lower_bound(k);
        if i < self.entries.len() && self.entries[i].0 == k {
            proof {
                self.lemma_entry(i as int);
            }
            Some(&self.entries[i].1)
        } else {
            proof {
                if self@.contains_key(k) {
                    let j = choose|j: int| 0 <= j < self.entries().len() && self.entries()[j].0 == k;
                    if j < i {
                    } else {
                        assert(self.entries()[i as int].0 <= self.entries()[j].0);
                    }
                }
            }
            None
        }
    }

    /// Whether `k` has an entry.
    pub fn contains(&self, k: u64) -> (r: bool)
        requires
            self.wf(),
        ensures
            r == self@.contains_key(k),
    {
        match self.get(k) {
            Some(_) => true,
            None => false,
        }
    }

    /// Stores `v` under `k`, replacing what was there.
    pub fn insert(&mut self, k: u64, v: V)
        requires
            old(self).wf(),
        ensures
            final(self).wf(),
            final(self)@ == old(self)@.insert(k, v@),
    {
        let ghost old_s = self.entries();
        let i = self.lower_bound(k);
        if i < self.entries.len() && self.entries[i].0 == k {
            self.entries.set(i, (k, v));
            let ghost s = self.entries();
            assert(s =~= old_s.update(i as int, (k, v)));
            assert(self.wf());
            assert forall|key: u64| #[trigger] self@.contains_key(key) == old(self)@.insert(
                k,
                v@,
            ).contains_key(key) by {
                if key != k && old(self)@.contains_key(key) {
                    let j = choose|j: int| 0 <= j < old_s.len() && old_s[j].0 == key;
                    assert(s[j].0 == key);
                }
                if self@.contains_key(key) && key != k {
                    let j = choose|j: int| 0 <= j < s.len() && s[j].0 == key;
                    assert(old_s[j].0 == key);
                }
                if key == k {
                    assert(s[i as int].0 == k);
                }
            }
            assert forall|key: u64| #[trigger] self@.contains_key(key) implies self@[key]
                == old(self)@.insert(k, v@)[key] by {
                let j = choose|j: int| 0 <= j < s.len() && s[j].0 == key;
                self.lemma_entry(j);
                if key != k {
                    assert(old_s[j].0 == key);
                    old(self).lemma_entry(j);
                }
            }
            assert(self@ =~= old(self)@.insert(k, v@));
        } else {
            self.entries.insert(i, (k, v));
            let ghost s = self.entries();
            assert(s =~= old_s.subrange(0, i as int).push((k, v)) + old_s.subrange(
                i as int,
                old_s.len() as int,
            ));
            assert forall|a: int, b: int| 0 <= a < b < s.len() implies s[a].0 < s[b].0 by {
                if b < i {
                    assert(s[a] == old_s[a] && s[b] == old_s[b]);
                } else if b == i {
                    assert(s[a] == old_s[a]);
                } else if a == i {
                    assert(s[b] == old_s[b - 1]);
                } else if a < i {
                    assert(s[a] == old_s[a] && s[b] == old_s[b - 1]);
                } else {
                    assert(s[a] == old_s[a - 1] && s[b] == old_s[b - 1]);
                }
            }
            assert(self.wf());
            assert forall|key: u64| #[trigger] self@.contains_key(key) == old(self)@.insert(
                k,
                v@,
            ).contains_key(key) by {
                if key != k && old(self)@.contains_key(key) {
                    let j = choose|j: int| 0 <= j < old_s.len() && old_s[j].0 == key;
                    if j < i {
                        assert(s[j].0 == key);
                    } else {
                        assert(s[j + 1].0 == key);
                    }
                }
                if self@.contains_key(key) && key != k {
                    let j = choose|j: int| 0 <= j < s.len() && s[j].0 == key;
                    if j < i {
                        assert(old_s[j].0 == key);
                    } else {
                        assert(j != i);
                        assert(old_s[j - 1].0 == key);
                    }
                }
                if key == k {
                    assert(s[i as int].0 == k);
                }
            }
            assert forall|key: u64| #[trigger] self@.contains_key(key) implies self@[key]
                == old(self)@.insert(k, v@)[key] by {
                let j = choose|j: int| 0 <= j < s.len() && s[j].0 == key;
                self.lemma_entry(j);
                if key != k {
                    if j < i {
                        assert(old_s[j].0 == key);
                        old(self).lemma_entry(j);
                    } else {
                        assert(j != i);
                        assert(old_s[j - 1].0 == key);
                        old(self).lemma_entry(j - 1);
                    }
                }
            }
            assert(self@ =~= old(self)@.insert(k, v@));
        }
    }

    /// Removes the entry under `k`, if there is one.
    pub fn remove(&mut self, k: u64)
        requires
            old(self).wf(),
        ensures
            final(self).wf(),
            final(self)@ == old(self)@.remove(k),
    {
        let ghost old_s = self.entries();
        let i = self.lower_bound(k);
        if i < self.entries.len() && self.entries[i].0 == k {
            let _ = self.entries.remove(i);
            let ghost s = self.entries();
            assert(s =~= old_s.subrange(0, i as int) + old_s.subrange(i + 1, old_s.len() as int));
            assert forall|a: int, b: int| 0 <= a < b < s.len() implies s[a].0 < s[b].0 by {
                if b < i {
                    assert(s[a] == old_s[a] && s[b] == old_s[b]);
                } else if a < i {
                    assert(s[a] == old_s[a] && s[b] == old_s[b + 1]);
                } else {
                    assert(s[a] == old_s[a + 1] && s[b] == old_s[b + 1]);
                }
            }
            assert(self.wf());
            assert forall|key: u64| #[trigger] self@.contains_key(key) == old(self)@.remove(
                k,
            ).contains_key(key) by {
                if key != k && old(self)@.contains_key(key) {
                    let j = choose|j: int| 0 <= j < old_s.len() && old_s[j].0 == key;
                    if j < i {
                        assert(s[j].0 == key);
                    } else {
                        assert(j != i);
                        assert(s[j - 1].0 == key);
                    }
                }
                if self@.contains_key(key) {
                    let j = choose|j: int| 0 <= j < s.len() && s[j].0 == key;
                    if j < i {
                        assert(old_s[j].0 == key);
                        assert(old_s[j].0 < old_s[i as int].0);
                    } else {
                        assert(old_s[j + 1].0 == key);
                        assert(old_s[i as int].0 < old_s[j + 1].0);
                    }
                }
            }
            assert forall|key: u64| #[trigger] self@.contains_key(key) implies self@[key]
                == old(self)@.remove(k)[key] by {
                let j = choose|j: int| 0 <= j < s.len() && s[j].0 == key;
                self.lemma_entry(j);
                if j < i {
                    assert(old_s[j].0 == key);
                    old(self).lemma_entry(j);
                } else {
                    assert(old_s[j + 1].0 == key);
                    old(self).lemma_entry(j + 1);
                }
            }
            assert(self@ =~= old(self)@.remove(k));
        } else {
            assert forall|key: u64| #[trigger] old(self)@.contains_key(key) implies key != k by {
                let j = choose|j: int| 0 <= j < old_s.len() && old_s[j].0 == key;
                if j >= i {
                    assert(old_s[i as int].0 <= old_s[j].0);
                }
            }
            assert(self@ =~= old(self)@.remove(k));
        }
    }

    /// The values after `start` (in ascending key order) that `pred` accepts,
    /// at most `limit` of them.
    pub fn select<F: Fn(&V) -> bool>(
        &self,
        start: Option<u64>,
        limit: usize,
        pred: F,
        Ghost(sp): Ghost<spec_fn(V::V) -> bool>,
    ) -> (r: Vec<V>) where V: Duplicate
        requires
            forall|v: &V| #[trigger] pred.requires((v,)),
            forall|v: &V, b: bool| pred.ensures((v,), b) ==> b == sp(v@),
        ensures
            r@.map_values(|v: V| v@) == cap(selected(self.entries(), start, sp), limit as nat),
    {
        let ghost s = self.entries();
        let ghost q = |e: (u64, V)| key_after(start, e.0) && sp(e.1@);
        let ghost val = |e: (u64, V)| e.1@;
        let mut res: Vec<V> = Vec::new();
        let n = self.entries.len();
        let mut i: usize = 0;
        assert(s.take(0).filter(q) =~= Seq::<(u64, V)>::empty()) by {
            reveal(Seq::filter);
        }
        while i < n
            invariant
                n == s.len(),
                s == self.entries(),
                i <= n,
                forall|v: &V| #[trigger] pred.requires((v,)),
                forall|v: &V, b: bool| pred.ensures((v,), b) ==> b == sp(v@),
                q == (|e: (u64, V)| key_after(start, e.0) && sp(e.1@)),
                val == (|e: (u64, V)| e.1@),
                res@.map_values(|v: V| v@) == cap(s.take(i as int).filter(q).map_values(val), limit as nat),
            decreases n - i,
        {
            let ghost prev = s.take(i as int).filter(q);
            assert(s.take(i + 1) =~= s.take(i as int).push(s[i as int]));
            proof {
                s.take(i as int).lemma_filter_push(s[i as int], q);
            }
            let k = self.entries[i].0;
            let v = &self.entries[i].1;
            let after = match start {
                Some(st) => k > st,
                None => true,
            };
            assert(after == key_after(start, s[i as int].0));
            assert(v@ == s[i as int].1@);
            let b = after && pred(v);
            assert(b == q(s[i as int]));
            if b {
                assert(prev.push(s[i as int]).map_values(val) =~= prev.map_values(val).push(
                    s[i as int].1@,
                ));
                if res.len() < limit {
                    let ghost before = res@;
                    res.push(v.duplicate());
                    assert(res@.map_values(|v: V| v@) =~= before.map_values(|v: V| v@).push(
                        s[i as int].1@,
                    ));
                    assert(res@.map_values(|v: V| v@) =~= cap(
                        s.take(i + 1).filter(q).map_values(val),
                        limit as nat,
                    ));
                } else {
                    assert(cap(prev.push(s[i as int]).map_values(val), limit as nat) =~= cap(
                        prev.map_values(val),
                        limit as nat,
                    ));
                }
            } else {
                assert(!q(s[i as int]));
            }
            i = i + 1;
        }
        assert(s.take(n as int) =~= s);
        res
    }

    /// How many values `pred` accepts.
    pub fn count<F: Fn(&V) -> bool>(&self, pred: F, Ghost(sp): Ghost<spec_fn(V::V) -> bool>) -> (r:
        usize)
        requires
            forall|v: &V| #[trigger] pred.requires((v,)),
            forall|v: &V, b: bool| pred.ensures((v,), b) ==> b == sp(v@),
        ensures
            r == selected(self.entries(), None, sp).len(),
    {
        let ghost s = self.entries();
        let ghost q = |e: (u64, V)| key_after(None, e.0) && sp(e.1@);
        let n = self.entries.len();
        let mut i: usize = 0;
        let mut c: usize = 0;
        assert(s.take(0).filter(q) =~= Seq::<(u64, V)>::empty()) by {
            reveal(Seq::filter);
        }
        while i < n
            invariant
                n == s.len(),
                s == self.entries(),
                i <= n,
                c <= i,
                forall|v: &V| #[trigger] pred.requires((v,)),
                forall|v: &V, b: bool| pred.ensures((v,), b) ==> b == sp(v@),
                q == (|e: (u64, V)| key_after(None, e.0) && sp(e.1@)),
                c == s.take(i as int).filter(q).len(),
            decreases n - i,
        {
            assert(s.take(i + 1) =~= s.take(i as int).push(s[i as int]));
            proof {
                s.take(i as int).lemma_filter_push(s[i as int], q);
            }
            let v = &self.entries[i].1;
            assert(v@ == s[i as int].1@);
            let b = pred(v);
            assert(b == sp(s[i as int].1@));
            assert(b == q(s[i as int]));
            if b {
                c = c + 1;
            }
            i = i + 1;
        }
        assert(s.take(n as int) =~= s);
        c
    }
}

} // verus!
