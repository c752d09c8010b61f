//! A map from integer keys to values, kept as a vector of pairs sorted by key: the
//! library's stand-in for an ordered map, walked in key order.
use vstd::prelude::*;

verus! {

/// Pairs of key and value with strictly increasing keys.
#[derive(Clone, Debug)]
pub struct KeyTable<V> {
    entries: Vec<(u32, V)>,
}

impl<V> KeyTable<V> {
    /// The pairs, in key order.
    pub closed spec fn pairs(&self) -> Seq<(u32, V)> {
        self.entries@
    }

    /// Keys strictly increase along the pairs.
    pub open spec fn wf(&self) -> bool {
        forall|i: int, j: int|
            0 <= i < j < self.pairs().len() ==> #[trigger] self.pairs()[i].0
                < #[trigger] self.pairs()[j].0
    }

    /// Whether `k` has a value.
    pub open spec fn has(&self, k: u32) -> bool {
        exists|i: int| 0 <= i < self.pairs().len() && #[trigger] self.pairs()[i].0 == k
    }

    /// The value of `k`, if any.
    pub open spec fn spec_get(&self, k: u32) -> Option<V> {
        if self.has(k) {
            let i = choose|i: int| 0 <= i < self.pairs().len() && #[trigger] self.pairs()[i].0 == k;
            Some(self.pairs()[i].1)
        } else {
            None
        }
    }

    /// In a well-formed table, the pair at `i` gives the value of its key.
    pub proof fn lemma_get_at(&self, i: int)
        requires
            self.wf(),
            0 <= i < self.pairs().len(),
        ensures
            self.spec_get(self.pairs()[i].0) == Some(self.pairs()[i].1),
    {
        let k = self.pairs()[i].0;
        assert(self.has(k));
        let j = choose|j: int| 0 <= j < self.pairs().len() && #[trigger] self.pairs()[j].0 == k;
        if j < i {
            assert(self.pairs()[j].0 < self.pairs()[i].0);
        } else if i < j {
            assert(self.pairs()[i].0 < self.pairs()[j].0);
        }
    }

    /// An empty table.
    pub fn new() -> (r: Self)
        ensures
            r.wf(),
            r.pairs().len() == 0,
            forall|k: u32| !r.has(k),
    {
        KeyTable { entries: Vec::new() }
    }

    /// A copy of the table.
    pub fn duplicate(&self) -> (r: Self) where V: Copy
        ensures
            r.pairs() == self.pairs(),
    {
        let mut entries: Vec<(u32, V)> = Vec::new();
        let mut i: usize = 0;
        while i < self.entries.len()
            invariant
                i <= self.entries@.len(),
                entries@ == self.entries@.subrange(0, i as int),
            decreases self.entries@.len() - i,
        {
            entries.push(self.entries[i]);
            i = i + 1;
            assert(entries@ =~= self.entries@.subrange(0, i as int));
        }
        assert(entries@ =~= self.entries@);
        KeyTable { entries }
    }

    /// Number of pairs.
    pub fn len(&self) -> (r: usize)
        ensures
            r == self.pairs().len(),
    {
        self.entries.len()
    }

    /// The key of pair `i`.
    pub fn key_at(&self, i: usize) -> (r: u32)
        requires
            i < self.pairs().len(),
        ensures
            r == self.pairs()[i as int].0,
    {
        self.entries[i].0
    }

    /// The value of pair `i`.
    pub fn value_at(&self, i: usize) -> (r: &V)
        requires
            i < self.pairs().len(),
        ensures
            *r == self.pairs()[i as int].1,
    {
        &self.entries[i].1
    }

    /// Index of the first pair whose key is at least `k`.
    fn position(&self, k: u32) -> (r: usize)
        requires
            self.wf(),
        ensures
            r <= self.pairs().len(),
            forall|i: int| 0 <= i < r ==> #[trigger] self.pairs()[i].0 < k,
            r < self.pairs().len() ==> self.pairs()[r as int].0 >= k,
    {
        let mut i: usize = 0;
        while i < self.entries.len() && self.entries[i].0 < k
            invariant
                i <= self.pairs().len(),
                self.pairs() == self.entries@,
                forall|j: int| 0 <= j < i ==> #[trigger] self.pairs()[j].0 < k,
            decreases self.pairs().len() - i,
        {
            i = i + 1;
        }
        i
    }

    /// The value of `k`, if any.
    pub fn get(&self, k: u32) -> (r: Option<&V>)
        requires
            self.wf(),
        ensures
            r matches Some(v) ==> self.spec_get(k) == Some(*v),
            r is None ==> self.spec_get(k) is None,
    {
        let p = self.position(k);
        if p < self.entries.len() && self.entries[p].0 == k {
            proof {
                self.lemma_get_at(p as int);
            }
            Some(&self.entries[p].1)
        } else {
            assert(!self.has(k)) by {
                if self.has(k) {
                    let j = choose|j: int|
                        0 <= j < self.pairs().len() && #[trigger] self.pairs()[j].0 == k;
                    if j > p {
                        assert(self.pairs()[p as int].0 < self.pairs()[j].0);
                    }
                }
            }
            None
        }
    }

    /// Whether `k` has a value.
    pub fn contains_key(&self, k: u32) -> (r: bool)
        requires
            self.wf(),
        ensures
            r == self.has(k),
    {
        match self.get(k) {
            Some(_) => true,
            None => false,
        }
    }

    /// Bind `k` to `v`, replacing any earlier value.
    pub fn insert(&mut self, k: u32, v: V)
        requires
            old(self).wf(),
        ensures
            final(self).wf(),
            final(self).spec_get(k) == Some(v),
            forall|j: u32| j != k ==> final(self).spec_get(j) == old(self).spec_get(j),
    {
        let p = self.position(k);
        let ghost old_pairs = self.pairs();
        if p < self.entries.len() && self.entries[p].0 == k {
            self.entries.set(p, (k, v));
            assert(self.pairs() == old_pairs.update(p as int, (k, v)));
        } else {
            self.entries.insert(p, (k, v));
            assert(self.pairs() == old_pairs.insert(p as int, (k, v)));
        }
        assert(self.wf());
        proof {
            self.lemma_get_at(p as int);
            assert forall|j: u32| j != k implies self.spec_get(j) == old(self).spec_get(j) by {
                if old(self).has(j) {
                    let i = choose|i: int|
                        0 <= i < old_pairs.len() && #[trigger] old_pairs[i].0 == j;
                    old(self).lemma_get_at(i);
                    let ni = if i < p {
                        i
                    } else if self.pairs().len() == old_pairs.len() {
                        i
                    } else {
                        i + 1
                    };
                    assert(self.pairs()[ni].0 == j);
                    self.lemma_get_at(ni);
                } else {
                    if self.has(j) {
                        let i = choose|i: int|
                            0 <= i < self.pairs().len() && #[trigger] self.pairs()[i].0 == j;
                        let oi = if i < p {
                            i
                        } else if self.pairs().len() == old_pairs.len() {
                            i
                        } else {
                            i - 1
                        };
                        assert(old_pairs[oi].0 == j);
                    }
                }
            }
        }
    }
}

} // verus!
