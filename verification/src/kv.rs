//! A verified string-keyed store, the shape all three durable collections of
//! this subsystem share: a list of records with pairwise-distinct keys, seen
//! in contracts as a `Map` from key to value.

use vstd::prelude::*;
use crate::strutil::str_eq;

verus! {

/// One stored record.
pub struct Entry<V> {
    pub key: String,
    pub val: V,
}

/// A string-keyed store. Its contracts speak of `self@`, the map from each
/// key to the value stored under it.
pub struct KvVec<V> {
    entries: Vec<Entry<V>>,
}

impl<V> View for KvVec<V> {
    type V = Map<Seq<char>, V>;

    closed spec fn view(&self) -> Map<Seq<char>, V> {
        KvVec::<V>::map_of(self.entries@)
    }
}

impl<V> KvVec<V> {
    pub closed spec fn map_of(s: Seq<Entry<V>>) -> Map<Seq<char>, V>
        decreases s.len(),
    {
        if s.len() == 0 {
            Map::empty()
        } else {
            Self::map_of(s.drop_last()).insert(s.last().key@, s.last().val)
        }
    }

    pub closed spec fn unique_keys(s: Seq<Entry<V>>) -> bool {
        forall|i: int, j: int| 0 <= i < j < s.len() ==> s[i].key@ != s[j].key@
    }

    /// The store's internal invariant: no key occurs twice.
    pub closed spec fn wf(&self) -> bool {
        Self::unique_keys(self.entries@)
    }

    proof fn lemma_map_of_contains(s: Seq<Entry<V>>)
        ensures
            forall|k: Seq<char>|
                #[trigger] Self::map_of(s).contains_key(k) <==> exists|i: int|
                    0 <= i < s.len() && s[i].key@ == k,
        decreases s.len(),
    {
        if s.len() > 0 {
            Self::lemma_map_of_contains(s.drop_last());
            assert forall|k: Seq<char>| #[trigger]
                Self::map_of(s).contains_key(k) implies exists|i: int|
                0 <= i < s.len() && s[i].key@ == k by {
                if k == s.last().key@ {
                    assert(s[s.len() - 1].key@ == k);
                } else {
                    assert(Self::map_of(s.drop_last()).contains_key(k));
                    let i = choose|i: int| 0 <= i < s.drop_last().len() && s.drop_last()[i].key@
                        == k;
                    assert(s.drop_last()[i] == s[i]);
                    assert(s[i].key@ == k);
                }
            }
            assert forall|k: Seq<char>|
                (exists|i: int| 0 <= i < s.len() && s[i].key@ == k) implies #[trigger]
                Self::map_of(s).contains_key(k) by {
                let i = choose|i: int| 0 <= i < s.len() && s[i].key@ == k;
                if i < s.len() - 1 {
                    assert(s.drop_last()[i] == s[i]);
                    assert(s.drop_last()[i].key@ == k);
                    assert(Self::map_of(s.drop_last()).contains_key(k));
                } else {
                    assert(k == s.last().key@);
                }
            }
        }
    }

    proof fn lemma_map_of_get(s: Seq<Entry<V>>, i: int)
        requires
            Self::unique_keys(s),
            0 <= i < s.len(),
        ensures
            Self::map_of(s).contains_key(s[i].key@),
            Self::map_of(s)[s[i].key@] == s[i].val,
        decreases s.len(),
    {
        if i == s.len() - 1 {
        } else {
            assert(s.drop_last()[i] == s[i]);
            Self::lemma_map_of_get(s.drop_last(), i);
            assert(s[i].key@ != s.last().key@);
        }
    }

    proof fn lemma_map_of_push(s: Seq<Entry<V>>, e: Entry<V>)
        ensures
            Self::map_of(s.push(e)) == Self::map_of(s).insert(e.key@, e.val),
    {
        assert(s.push(e).drop_last() =~= s);
        assert(s.push(e).last() == e);
    }

    proof fn lemma_map_of_remove_at(s: Seq<Entry<V>>, i: int)
        requires
            Self::unique_keys(s),
            0 <= i < s.len(),
        ensures
            Self::unique_keys(s.remove(i)),
            Self::map_of(s.remove(i)) == Self::map_of(s).remove(s[i].key@),
        decreases s.len(),
    {
        let k = s[i].key@;
        Self::lemma_map_of_contains(s.drop_last());
        if i == s.len() - 1 {
            assert(s.remove(i) =~= s.drop_last());
            assert(!Self::map_of(s.drop_last()).contains_key(k));
            assert(Self::map_of(s.drop_last()) =~= Self::map_of(s.drop_last()).insert(
                k,
                s[i].val,
            ).remove(k));
        } else {
            assert(s.remove(i).last() == s.last());
            assert(s.remove(i).drop_last() =~= s.drop_last().remove(i));
            Self::lemma_map_of_remove_at(s.drop_last(), i);
            assert(s.drop_last()[i] == s[i]);
            assert(k != s.last().key@);
            assert(Self::map_of(s.drop_last()).remove(k).insert(s.last().key@, s.last().val)
                =~= Self::map_of(s.drop_last()).insert(s.last().key@, s.last().val).remove(k));
            assert forall|a: int, b: int|
                0 <= a < b < s.remove(i).len() implies s.remove(i)[a].key@ != s.remove(
                i,
            )[b].key@ by {
                if b < i {
                    assert(s.remove(i)[a] == s[a] && s.remove(i)[b] == s[b]);
                } else if a < i {
                    assert(s.remove(i)[a] == s[a] && s.remove(i)[b] == s[b + 1]);
                } else {
                    assert(s.remove(i)[a] == s[a + 1] && s.remove(i)[b] == s[b + 1]);
                }
            }
        }
    }

    /// An empty store.
    pub fn new() -> (s: Self)
        ensures
            s.wf(),
            s@ == Map::<Seq<char>, V>::empty(),
    {
        KvVec { entries: Vec::new() }
    }

    /// The value stored under `k`, if any.
    pub fn get(&self, k: &str) -> (r: Option<&V>)
        requires
            self.wf(),
        ensures
            match r {
                Some(v) => self@.contains_key(k@) && *v == self@[k@],
                None => !self@.contains_key(k@),
            },
    {
        proof {
            Self::lemma_map_of_contains(self.entries@);
        }
        let n = self.entries.len();
        let mut i: usize = 0;
        while i < n
            invariant
                i <= n,
                n == self.entries@.len(),
                self.wf(),
                forall|j: int| 0 <= j < i ==> self.entries@[j].key@ != k@,
            decreases n - i,
        {
            if str_eq(self.entries[i].key.as_str(), k) {
                proof {
                    Self::lemma_map_of_get(self.entries@, i as int);
                }
                return Some(&self.entries[i].val);
            }
            i += 1;
        }
        None
    }

    /// Store `v` under `k`, replacing what was there.
    pub fn insert(&mut self, k: String, v: V)
        requires
            old(self).wf(),
        ensures
            final(self).wf(),
            final(self)@ == old(self)@.insert(k@, v),
    {
        let ghost m0 = self@;
        let _ = self.remove(k.as_str());
        proof {
            assert(self@ =~= m0.remove(k@) || self@ == m0);
        }
        let ghost m1 = self@;
        let ghost before = self.entries@;
        self.entries.push(Entry { key: k, val: v });
        proof {
            Self::lemma_map_of_push(before, Entry { key: k, val: v });
            assert(self@ =~= m0.insert(k@, v));
            Self::lemma_map_of_contains(before);
            assert forall|a: int, b: int|
                0 <= a < b < self.entries@.len() implies self.entries@[a].key@
                != self.entries@[b].key@ by {
                if b == self.entries@.len() - 1 {
                    assert(!m1.contains_key(k@));
                    assert(self.entries@[a] == before[a]);
                }
            }
        }
    }

    /// Take the value stored under `k` out of the store.
    pub fn remove(&mut self, k: &str) -> (r: Option<V>)
        requires
            old(self).wf(),
        ensures
            final(self).wf(),
            match r {
                Some(v) => old(self)@.contains_key(k@) && v == old(self)@[k@] && final(self)@
                    == old(self)@.remove(k@),
                None => !old(self)@.contains_key(k@) && *final(self) == *old(self),
            },
    {
        proof {
            Self::lemma_map_of_contains(self.entries@);
        }
        let n = self.entries.len();
        let mut i: usize = 0;
        while i < n
            invariant
                i <= n,
                n == self.entries@.len(),
                self.wf(),
                *self == *old(self),
                forall|j: int| 0 <= j < i ==> self.entries@[j].key@ != k@,
            decreases n - i,
        {
            if str_eq(self.entries[i].key.as_str(), k) {
                proof {
                    Self::lemma_map_of_get(self.entries@, i as int);
                    Self::lemma_map_of_remove_at(self.entries@, i as int);
                }
                let e = self.entries.remove(i);
                return Some(e.val);
            }
            i += 1;
        }
        None
    }

    /// How many records the store holds.
    pub fn len(&self) -> (n: usize)
        requires
            self.wf(),
        ensures
            n == self@.dom().len(),
    {
        proof {
            Self::lemma_len(self.entries@);
        }
        self.entries.len()
    }

    proof fn lemma_view_values(s: &Self)
        requires
            s.wf(),
        ensures
            forall|k: Seq<char>|
                #[trigger] s@.contains_key(k) ==> exists|i: int|
                    0 <= i < s.entries@.len() && s.entries@[i].key@ == k && s.entries@[i].val
                        == s@[k],
    {
        Self::lemma_map_of_contains(s.entries@);
        assert forall|k: Seq<char>| #[trigger] s@.contains_key(k) implies exists|i: int|
            0 <= i < s.entries@.len() && s.entries@[i].key@ == k && s.entries@[i].val == s@[k] by {
            let i = choose|i: int| 0 <= i < s.entries@.len() && s.entries@[i].key@ == k;
            Self::lemma_map_of_get(s.entries@, i);
        }
    }

    proof fn lemma_len(s: Seq<Entry<V>>)
        requires
            Self::unique_keys(s),
        ensures
            Self::map_of(s).dom().finite(),
            Self::map_of(s).dom().len() == s.len(),
        decreases s.len(),
    {
        if s.len() > 0 {
            Self::lemma_len(s.drop_last());
            Self::lemma_map_of_contains(s.drop_last());
            assert(!Self::map_of(s.drop_last()).contains_key(s.last().key@));
        }
    }
}

impl KvVec<i64> {
    /// The key under which the integer `v` is stored, if any key holds it.
    pub fn key_of(&self, v: i64) -> (r: Option<&String>)
        requires
            self.wf(),
        ensures
            match r {
                Some(k) => self@.contains_key(k@) && self@[k@] == v,
                None => forall|k: Seq<char>| #[trigger] self@.contains_key(k) ==> self@[k] != v,
            },
    {
        proof {
            Self::lemma_map_of_contains(self.entries@);
        }
        let n = self.entries.len();
        let mut i: usize = 0;
        while i < n
            invariant
                i <= n,
                n == self.entries@.len(),
                self.wf(),
                forall|j: int| 0 <= j < i ==> self.entries@[j].val != v,
            decreases n - i,
        {
            if self.entries[i].val == v {
                proof {
                    Self::lemma_map_of_get(self.entries@, i as int);
                }
                return Some(&self.entries[i].key);
            }
            i += 1;
        }
        proof {
            Self::lemma_view_values(self);
        }
        None
    }
}

} // verus!
