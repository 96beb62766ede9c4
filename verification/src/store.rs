//! Association-list maps with a `Map` view: the shape shared by the two
//! persistent record stores and the asset registry, all keyed by `NftKey`.

use crate::types::NftKey;
use vstd::prelude::*;

verus! {

/// The `Map` that a sequence of key/value entries denotes; later entries
/// win, though well-formed stores never repeat a key.
pub open spec fn assoc_map<K, V>(s: Seq<(K, V)>) -> Map<K, V>
    decreases s.len(),
{
    if s.len() == 0 {
        Map::empty()
    } else {
        assoc_map(s.drop_last()).insert(s.last().0, s.last().1)
    }
}

/// No key occurs twice in the entry sequence.
pub open spec fn distinct_keys<K, V>(s: Seq<(K, V)>) -> bool {
    forall|i: int, j: int| 0 <= i < j < s.len() ==> (#[trigger] s[i]).0 != (#[trigger] s[j]).0
}

/// A key is in the denoted map exactly when some entry carries it.
pub proof fn lemma_assoc_contains<K, V>(s: Seq<(K, V)>, k: K)
    ensures
        assoc_map(s).dom().contains(k) <==> exists|i: int|
            0 <= i < s.len() && (#[trigger] s[i]).0 == k,
    decreases s.len(),
{
    if s.len() > 0 {
        lemma_assoc_contains(s.drop_last(), k);
        if s.last().0 == k {
            assert(s[s.len() - 1].0 == k);
        } else if exists|i: int| 0 <= i < s.len() && (#[trigger] s[i]).0 == k {
            let i = choose|i: int| 0 <= i < s.len() && (#[trigger] s[i]).0 == k;
            assert(s.drop_last()[i].0 == k);
        }
    }
}

/// With distinct keys, the entry at any index gives the map's value there.
pub proof fn lemma_assoc_index<K, V>(s: Seq<(K, V)>, i: int)
    requires
        distinct_keys(s),
        0 <= i < s.len(),
    ensures
        assoc_map(s).dom().contains(s[i].0),
        assoc_map(s)[s[i].0] == s[i].1,
    decreases s.len(),
{
    if i < s.len() - 1 {
        lemma_assoc_index(s.drop_last(), i);
        assert(s.drop_last()[i] == s[i]);
        assert(s.last().0 != s[i].0);
    }
}

/// Overwriting the entry that carries a key updates the denoted map at
/// that key alone and keeps the keys distinct.
pub proof fn lemma_assoc_update<K, V>(s: Seq<(K, V)>, i: int, v: V)
    requires
        distinct_keys(s),
        0 <= i < s.len(),
    ensures
        distinct_keys(s.update(i, (s[i].0, v))),
        assoc_map(s.update(i, (s[i].0, v))) =~= assoc_map(s).insert(s[i].0, v),
    decreases s.len(),
{
    let k = s[i].0;
    let t = s.update(i, (k, v));
    if i == s.len() - 1 {
        assert(t.drop_last() =~= s.drop_last());
        assert(t.last() == (k, v));
    } else {
        lemma_assoc_update(s.drop_last(), i, v);
        assert(t.drop_last() =~= s.drop_last().update(i, (k, v)));
        assert(t.last() == s.last());
        assert(s.last().0 != k);
    }
}

/// Removing the entry that carries a key removes that key alone from the
/// denoted map and keeps the keys distinct.
pub proof fn lemma_assoc_remove<K, V>(s: Seq<(K, V)>, i: int)
    requires
        distinct_keys(s),
        0 <= i < s.len(),
    ensures
        distinct_keys(s.remove(i)),
        assoc_map(s.remove(i)) =~= assoc_map(s).remove(s[i].0),
    decreases s.len(),
{
    let k = s[i].0;
    let t = s.remove(i);
    assert(forall|a: int, b: int|
        0 <= a < b < t.len() ==> (#[trigger] t[a]).0 != (#[trigger] t[b]).0) by {
        assert(forall|a: int| 0 <= a < t.len() ==> #[trigger] t[a] == if a < i {
            s[a]
        } else {
            s[a + 1]
        });
    }
    if i == s.len() - 1 {
        assert(t =~= s.drop_last());
        lemma_assoc_contains(s.drop_last(), k);
        assert(assoc_map(s.drop_last()).remove(k) =~= assoc_map(s.drop_last()));
    } else {
        lemma_assoc_remove(s.drop_last(), i);
        assert(t.drop_last() =~= s.drop_last().remove(i));
        assert(t.last() == s.last());
        assert(s.last().0 != k);
    }
}

/// Association-list map from asset keys to records.
pub struct Store<V> {
    pub entries: Vec<(NftKey, V)>,
}

impl<V> View for Store<V> {
    type V = Map<NftKey, V>;

    open spec fn view(&self) -> Map<NftKey, V> {
        assoc_map(self.entries@)
    }
}

impl<V: Copy> Store<V> {
    /// Each key is carried by at most one entry.
    pub open spec fn wf(&self) -> bool {
        distinct_keys(self.entries@)
    }

    pub fn new() -> (s: Self)
        ensures
            s.wf(),
            s@ =~= Map::<NftKey, V>::empty(),
            s.entries@ =~= Seq::<(NftKey, V)>::empty(),
    {
        Store { entries: Vec::new() }
    }

    /// The index of the entry carrying `k`, if any entry does.
    fn index_of(&self, k: NftKey) -> (r: Option<usize>)
        ensures
            match r {
                Some(i) => i < self.entries@.len() && self.entries@[i as int].0 == k,
                None => forall|j: int|
                    0 <= j < self.entries@.len() ==> (#[trigger] self.entries@[j]).0 != k,
            },
    {
        let n = self.entries.len();
        let mut i: usize = 0;
        while i < n
            invariant
                n == self.entries@.len(),
                i <= n,
                forall|j: int| 0 <= j < i ==> (#[trigger] self.entries@[j]).0 != k,
            decreases n - i,
        {
            if self.entries[i].0 == k {
                return Some(i);
            }
            i = i + 1;
        }
        None
    }

    pub fn contains_key(&self, k: NftKey) -> (r: bool)
        requires
            self.wf(),
        ensures
            r == self@.dom().contains(k),
    {
        proof {
            lemma_assoc_contains(self.entries@, k);
        }
        self.index_of(k).is_some()
    }

    pub fn get(&self, k: NftKey) -> (r: Option<V>)
        requires
            self.wf(),
        ensures
            self@.dom().contains(k) ==> r == Some(self@[k]),
            !self@.dom().contains(k) ==> r is None,
    {
        proof {
            lemma_assoc_contains(self.entries@, k);
        }
        match self.index_of(k) {
            Some(i) => {
                proof {
                    lemma_assoc_index(self.entries@, i as int);
                }
                Some(self.entries[i].1)
            },
            None => None,
        }
    }

    /// Binds `k` to `v`; a fresh key is appended at the end of the entry
    /// sequence, an existing one is overwritten in place.
    pub fn insert(&mut self, k: NftKey, v: V)
        requires
            old(self).wf(),
        ensures
            final(self).wf(),
            final(self)@ =~= old(self)@.insert(k, v),
            !old(self)@.dom().contains(k) ==> final(self).entries@ == old(self).entries@.push(
                (k, v),
            ),
    {
        proof {
            lemma_assoc_contains(self.entries@, k);
        }
        match self.index_of(k) {
            Some(i) => {
                proof {
                    lemma_assoc_update(self.entries@, i as int, v);
                }
                self.entries[i] = (k, v);
            },
            None => {
                self.entries.push((k, v));
                proof {
                    assert(self.entries@.drop_last() =~= old(self).entries@);
                }
            },
        }
    }

    /// Unbinds `k`; the entry carrying it, if any, leaves the sequence and
    /// every other entry keeps its relative position.
    pub fn remove(&mut self, k: NftKey)
        requires
            old(self).wf(),
        ensures
            final(self).wf(),
            final(self)@ =~= old(self)@.remove(k),
            old(self)@.dom().contains(k) ==> exists|i: int|
                0 <= i < old(self).entries@.len() && #[trigger] old(self).entries@[i] == (
                k,
                old(self)@[k],
                ) && final(self).entries@ == old(self).entries@.remove(i),
            !old(self)@.dom().contains(k) ==> final(self).entries@ == old(self).entries@,
    {
        proof {
            lemma_assoc_contains(self.entries@, k);
        }
        match self.index_of(k) {
            Some(i) => {
                proof {
                    lemma_assoc_index(self.entries@, i as int);
                    lemma_assoc_remove(self.entries@, i as int);
                }
                self.entries.remove(i);
            },
            None => {
                proof {
                    assert(self@.remove(k) =~= self@);
                }
            },
        }
    }
}

} // verus!
