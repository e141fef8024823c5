//! A finite key-value store held as a list of distinct entries.
//!
//! Each storage item of the metalog module (a map from a key to a value, where
//! reading an absent key is told apart from reading a present one) is a
//! `KvStore`. Its view is the finite map from the view of each key to the view
//! of its value.
use vstd::prelude::*;
use vstd::set_lib::lemma_subset_equality;

verus! {

/// What a store holds as a key or as a value: it can be compared with another
/// of its kind and duplicated, both by its view.
pub trait Stored: View + Sized {
    fn same(&self, other: &Self) -> (r: bool)
        ensures
            r == (self@ == other@),
    ;

    fn duplicate(&self) -> (r: Self)
        ensures
            r@ == self@,
    ;
}

impl Stored for u64 {
    fn same(&self, other: &Self) -> (r: bool) {
        *self == *other
    }

    fn duplicate(&self) -> (r: Self) {
        *self
    }
}

impl Stored for (u64, u64) {
    fn same(&self, other: &Self) -> (r: bool) {
        self.0 == other.0 && self.1 == other.1
    }

    fn duplicate(&self) -> (r: Self) {
        (self.0, self.1)
    }
}

impl Stored for Vec<u8> {
    fn same(&self, other: &Self) -> (r: bool) {
        if self.len() != other.len() {
            assert(self@.len() != other@.len());
            return false;
        }
        let n = self.len();
        let mut i: usize = 0;
        while i < n
            invariant
                n == self@.len(),
                n == other@.len(),
                i <= n,
                forall|j: int| 0 <= j < i ==> self@[j] == other@[j],
            decreases n - i,
        {
            if self[i] != other[i] {
                assert(self@[i as int] != other@[i as int]);
                return false;
            }
            i = i + 1;
        }
        assert(self@ =~= other@);
        true
    }

    fn duplicate(&self) -> (r: Self) {
        let mut out: Vec<u8> = Vec::new();
        let n = self.len();
        let mut i: usize = 0;
        while i < n
            invariant
                n == self@.len(),
                i <= n,
                out@ =~= self@.take(i as int),
            decreases n - i,
        {
            out.push(self[i]);
            i = i + 1;
            assert(out@ =~= self@.take(i as int));
        }
        assert(self@.take(n as int) =~= self@);
        out
    }
}

/// A finite map kept as a list of entries whose keys are pairwise distinct.
pub struct KvStore<K: Stored, V: Stored> {
    entries: Vec<(K, V)>,
    contents: Ghost<Map<K::V, V::V>>,
}

impl<K: Stored, V: Stored> View for KvStore<K, V> {
    type V = Map<K::V, V::V>;

    closed spec fn view(&self) -> Map<K::V, V::V> {
        self.contents@
    }
}

impl<K: Stored, V: Stored> KvStore<K, V> {
    /// The entries stand for the map: every entry is in it with its value,
    /// every key of the map has an entry, no key has two, and the map has as
    /// many keys as there are entries.
    pub closed spec fn wf(&self) -> bool {
        let n = self.entries@.len();
        let m = self.contents@;
        &&& forall|i: int, j: int|
            0 <= i < j < n ==> #[trigger] self.entries@[i].0@ != #[trigger] self.entries@[j].0@
        &&& forall|i: int|
            0 <= i < n ==> m.dom().contains(#[trigger] self.entries@[i].0@) && m[self.entries@[i].0@]
                == self.entries@[i].1@
        &&& forall|k: K::V|
            #[trigger] m.dom().contains(k) ==> exists|i: int|
                0 <= i < n && #[trigger] self.entries@[i].0@ == k
        &&& m.dom().finite()
        &&& m.dom().len() == n
    }

    /// An empty store.
    pub fn new() -> (s: Self)
        ensures
            s.wf(),
            s@ == Map::<K::V, V::V>::empty(),
    {
        let s = KvStore { entries: Vec::new(), contents: Ghost(Map::empty()) };
        assert(s.contents@.dom() =~= Set::empty());
        s
    }

    /// The position of the entry for `k`, if there is one.
    fn find(&self, k: &K) -> (r: Option<usize>)
        requires
            self.wf(),
        ensures
            match r {
                Some(i) => i < self.entries@.len() && self.entries@[i as int].0@ == k@,
                None => !self@.dom().contains(k@),
            },
    {
        let n = self.entries.len();
        let mut i: usize = 0;
        while i < n
            invariant
                n == self.entries@.len(),
                i <= n,
                forall|j: int| 0 <= j < i ==> self.entries@[j].0@ != k@,
            decreases n - i,
        {
            if self.entries[i].0.same(k) {
                return Some(i);
            }
            i = i + 1;
        }
        proof {
            if self@.dom().contains(k@) {
                let j = choose|j: int| 0 <= j < n && #[trigger] self.entries@[j].0@ == k@;
                assert(self.entries@[j].0@ != k@);
            }
        }
        None
    }

    /// The value stored under `k`, if any.
    pub fn get(&self, k: &K) -> (r: Option<&V>)
        requires
            self.wf(),
        ensures
            match r {
                Some(v) => self@.dom().contains(k@) && v@ == self@[k@],
                None => !self@.dom().contains(k@),
            },
    {
        match self.find(k) {
            Some(i) => {
                assert(self.entries@[i as int].0@ == k@);
                Some(&self.entries[i].1)
            },
            None => None,
        }
    }

    /// Whether a value is stored under `k`.
    pub fn contains(&self, k: &K) -> (r: bool)
        requires
            self.wf(),
        ensures
            r == self@.dom().contains(k@),
    {
        match self.find(k) {
            Some(i) => {
                assert(self.entries@[i as int].0@ == k@);
                true
            },
            None => false,
        }
    }

    /// Stores `v` under `k`, in place of what was there.
    pub fn insert(&mut self, k: K, v: V)
        requires
            old(self).wf(),
        ensures
            final(self).wf(),
            final(self)@ == old(self)@.insert(k@, v@),
    {
        let ghost m0 = self.contents@;
        let ghost e0 = self.entries@;
        let ghost kv = k@;
        let ghost vv = v@;
        match self.find(&k) {
            Some(i) => {
                self.entries.set(i, (k, v));
                self.contents = Ghost(m0.insert(kv, vv));
                assert(m0.dom().insert(kv) =~= m0.dom());
                assert forall|j: int| 0 <= j < self.entries@.len() implies self.contents@.dom().contains(
                    #[trigger] self.entries@[j].0@,
                ) && self.contents@[self.entries@[j].0@] == self.entries@[j].1@ by {
                    if j != i {
                        assert(e0[j] == self.entries@[j]);
                        assert(e0[j].0@ != kv) by {
                            if j < i {
                                assert(e0[j].0@ != e0[i as int].0@);
                            } else {
                                assert(e0[i as int].0@ != e0[j].0@);
                            }
                        }
                    }
                }
                assert forall|a: int, b: int|
                    0 <= a < b < self.entries@.len() implies #[trigger] self.entries@[a].0@
                    != #[trigger] self.entries@[b].0@ by {
                    assert(e0[a].0@ != e0[b].0@);
                }
                assert forall|kk: K::V| #[trigger]
                    self.contents@.dom().contains(kk) implies exists|j: int|
                    0 <= j < self.entries@.len() && #[trigger] self.entries@[j].0@ == kk by {
                    if kk == kv {
                        assert(self.entries@[i as int].0@ == kk);
                    } else {
                        assert(m0.dom().contains(kk));
                        let j = choose|j: int| 0 <= j < e0.len() && #[trigger] e0[j].0@ == kk;
                        assert(self.entries@[j].0@ == kk);
                    }
                }
            },
            None => {
                self.entries.push((k, v));
                self.contents = Ghost(m0.insert(kv, vv));
                let ghost n = e0.len();
                assert forall|j: int| 0 <= j < n implies #[trigger] e0[j].0@ != kv by {
                    assert(m0.dom().contains(e0[j].0@));
                }
                assert forall|j: int| 0 <= j < self.entries@.len() implies self.contents@.dom().contains(
                    #[trigger] self.entries@[j].0@,
                ) && self.contents@[self.entries@[j].0@] == self.entries@[j].1@ by {
                    if j < n {
                        assert(self.entries@[j] == e0[j]);
                    }
                }
                assert forall|a: int, b: int|
                    0 <= a < b < self.entries@.len() implies #[trigger] self.entries@[a].0@
                    != #[trigger] self.entries@[b].0@ by {
                    if b < n {
                        assert(e0[a].0@ != e0[b].0@);
                    } else {
                        assert(e0[a].0@ != kv);
                    }
                }
                assert forall|kk: K::V| #[trigger]
                    self.contents@.dom().contains(kk) implies exists|j: int|
                    0 <= j < self.entries@.len() && #[trigger] self.entries@[j].0@ == kk by {
                    if kk == kv {
                        assert(self.entries@[n as int].0@ == kk);
                    } else {
                        assert(m0.dom().contains(kk));
                        let j = choose|j: int| 0 <= j < e0.len() && #[trigger] e0[j].0@ == kk;
                        assert(self.entries@[j].0@ == kk);
                    }
                }
            },
        }
    }

    /// Deletes what is stored under `k`, if anything.
    pub fn remove(&mut self, k: &K)
        requires
            old(self).wf(),
        ensures
            final(self).wf(),
            final(self)@ == old(self)@.remove(k@),
    {
        let ghost m0 = self.contents@;
        let ghost e0 = self.entries@;
        match self.find(k) {
            Some(i) => {
                let ghost n = e0.len();
                let _ = self.entries.swap_remove(i);
                self.contents = Ghost(m0.remove(k@));
                let ghost e1 = self.entries@;
                assert(e1.len() == n - 1);
                assert forall|j: int| 0 <= j < e1.len() implies #[trigger] e1[j] == (if j == i {
                    e0[n - 1]
                } else {
                    e0[j]
                }) by {}
                assert forall|j: int| 0 <= j < n && j != i implies #[trigger] e0[j].0@ != k@ by {
                    if j < i {
                        assert(e0[j].0@ != e0[i as int].0@);
                    } else {
                        assert(e0[i as int].0@ != e0[j].0@);
                    }
                }
                assert forall|j: int| 0 <= j < e1.len() implies self.contents@.dom().contains(
                    #[trigger] e1[j].0@,
                ) && self.contents@[e1[j].0@] == e1[j].1@ by {
                    if j == i {
                        assert(e0[n - 1].0@ != k@);
                    } else {
                        assert(e0[j].0@ != k@);
                    }
                }
                assert forall|a: int, b: int|
                    0 <= a < b < e1.len() implies #[trigger] e1[a].0@ != #[trigger] e1[b].0@ by {
                    if a == i {
                        assert(e0[b].0@ != e0[n - 1].0@);
                    } else {
                        assert(e0[a].0@ != e0[b].0@);
                    }
                }
                assert forall|kk: K::V| #[trigger]
                    self.contents@.dom().contains(kk) implies exists|j: int|
                    0 <= j < e1.len() && #[trigger] e1[j].0@ == kk by {
                    assert(m0.dom().contains(kk));
                    let j = choose|j: int| 0 <= j < e0.len() && #[trigger] e0[j].0@ == kk;
                    if j == n - 1 {
                        assert(e1[i as int].0@ == kk);
                    } else {
                        assert(e1[j].0@ == kk);
                    }
                }
            },
            None => {
                assert(m0.remove(k@) =~= m0);
            },
        }
    }

    /// A store with the same contents.
    pub fn duplicate_store(&self) -> (r: Self)
        requires
            self.wf(),
        ensures
            r.wf(),
            r@ == self@,
    {
        let n = self.entries.len();
        let mut out: Vec<(K, V)> = Vec::new();
        let mut i: usize = 0;
        while i < n
            invariant
                n == self.entries@.len(),
                i <= n,
                out@.len() == i,
                forall|j: int|
                    0 <= j < i ==> #[trigger] out@[j].0@ == self.entries@[j].0@ && out@[j].1@
                        == self.entries@[j].1@,
            decreases n - i,
        {
            let entry = &self.entries[i];
            out.push((entry.0.duplicate(), entry.1.duplicate()));
            i = i + 1;
        }
        let r = KvStore { entries: out, contents: Ghost(self.contents@) };
        assert forall|a: int, b: int|
            0 <= a < b < n implies #[trigger] r.entries@[a].0@ != #[trigger] r.entries@[b].0@ by {
            assert(self.entries@[a].0@ != self.entries@[b].0@);
        }
        assert forall|kk: K::V| #[trigger]
            r.contents@.dom().contains(kk) implies exists|j: int|
            0 <= j < n && #[trigger] r.entries@[j].0@ == kk by {
            let j = choose|j: int| 0 <= j < n && #[trigger] self.entries@[j].0@ == kk;
            assert(r.entries@[j].0@ == kk);
        }
        r
    }

    /// Whether two stores hold the same contents.
    pub fn same_contents(&self, other: &Self) -> (r: bool)
        requires
            self.wf(),
            other.wf(),
        ensures
            r == (self@ == other@),
    {
        if self.entries.len() != other.entries.len() {
            assert(self@.dom().len() != other@.dom().len());
            return false;
        }
        let n = self.entries.len();
        let mut i: usize = 0;
        while i < n
            invariant
                self.wf(),
                other.wf(),
                n == self.entries@.len(),
                i <= n,
                forall|j: int|
                    0 <= j < i ==> other@.dom().contains(#[trigger] self.entries@[j].0@) && other@[self.entries@[j].0@]
                        == self.entries@[j].1@,
            decreases n - i,
        {
            let entry = &self.entries[i];
            match other.get(&entry.0) {
                None => {
                    assert(self@.dom().contains(self.entries@[i as int].0@));
                    return false;
                },
                Some(v) => {
                    if !v.same(&entry.1) {
                        assert(self@[self.entries@[i as int].0@] == self.entries@[i as int].1@);
                        return false;
                    }
                },
            }
            i = i + 1;
        }
        assert(self@.dom().subset_of(other@.dom())) by {
            assert forall|kk: K::V| self@.dom().contains(kk) implies other@.dom().contains(kk) by {
                let j = choose|j: int| 0 <= j < n && #[trigger] self.entries@[j].0@ == kk;
                assert(other@.dom().contains(self.entries@[j].0@));
            }
        }
        proof {
            lemma_subset_equality(self@.dom(), other@.dom());
        }
        assert forall|kk: K::V| self@.dom().contains(kk) implies self@[kk] == other@[kk] by {
            let j = choose|j: int| 0 <= j < n && #[trigger] self.entries@[j].0@ == kk;
            assert(other@[self.entries@[j].0@] == self.entries@[j].1@);
        }
        assert(self@ =~= other@);
        true
    }
}

} // verus!
