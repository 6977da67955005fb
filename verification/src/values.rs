use vstd::prelude::*;

verus! {

/// Keyed storage used throughout the crate: an association list from string
/// keys to values whose specification view is a `Map` from character
/// sequences to values.  The operations keep the keys pairwise distinct.
#[verifier::reject_recursive_types(V)]
#[derive(Debug)]
pub struct StrMap<V> {
    pub(crate) entries: Vec<(String, V)>,
}

/// The map described by an association list; a later entry for a key
/// overrides an earlier one.
pub open spec fn map_of<V>(entries: Seq<(String, V)>) -> Map<Seq<char>, V>
    decreases entries.len(),
{
    if entries.len() == 0 {
        Map::empty()
    } else {
        map_of(entries.drop_last()).insert(entries.last().0@, entries.last().1)
    }
}

/// No two entries of the list share a key.
pub open spec fn keys_unique<V>(entries: Seq<(String, V)>) -> bool {
    forall|i: int, j: int|
        #![trigger entries[i], entries[j]]
        0 <= i < j < entries.len() ==> entries[i].0@ != entries[j].0@
}

proof fn lemma_map_of_contains<V>(entries: Seq<(String, V)>)
    ensures
        forall|k: Seq<char>|
            #[trigger] map_of(entries).contains_key(k) <==> exists|i: int|
                0 <= i < entries.len() && (#[trigger] entries[i]).0@ == k,
    decreases entries.len(),
{
    if entries.len() > 0 {
        let pre = entries.drop_last();
        lemma_map_of_contains(pre);
        assert(map_of(entries) == map_of(pre).insert(entries.last().0@, entries.last().1));
        assert forall|k: Seq<char>|
            #[trigger] map_of(entries).contains_key(k) <==> exists|i: int|
                0 <= i < entries.len() && (#[trigger] entries[i]).0@ == k by {
            if map_of(entries).contains_key(k) {
                if k == entries.last().0@ {
                    assert(entries[entries.len() - 1].0@ == k);
                } else {
                    assert(map_of(pre).contains_key(k));
                    let i = choose|i: int| 0 <= i < pre.len() && (#[trigger] pre[i]).0@ == k;
                    assert(pre[i] == entries[i]);
                    assert(entries[i].0@ == k);
                }
            }
            if exists|i: int| 0 <= i < entries.len() && (#[trigger] entries[i]).0@ == k {
                let i = choose|i: int| 0 <= i < entries.len() && (#[trigger] entries[i]).0@ == k;
                if i < entries.len() - 1 {
                    assert(pre[i] == entries[i]);
                    assert(pre[i].0@ == k);
                    assert(map_of(pre).contains_key(k));
                } else {
                    assert(k == entries.last().0@);
                }
            }
        }
    }
}

proof fn lemma_map_of_index<V>(entries: Seq<(String, V)>, i: int)
    requires
        0 <= i < entries.len(),
        forall|j: int| i < j < entries.len() ==> (#[trigger] entries[j]).0@ != entries[i].0@,
    ensures
        map_of(entries).contains_key(entries[i].0@),
        map_of(entries)[entries[i].0@] == entries[i].1,
    decreases entries.len(),
{
    if i < entries.len() - 1 {
        assert(entries.drop_last()[i] == entries[i]);
        assert forall|j: int|
            i < j < entries.drop_last().len() implies (#[trigger] entries.drop_last()[j]).0@
            != entries.drop_last()[i].0@ by {
            assert(entries.drop_last()[j] == entries[j]);
        }
        lemma_map_of_index(entries.drop_last(), i);
        assert(entries.last().0@ != entries[i].0@);
    }
}

/// For a list with distinct keys, the map has exactly the listed keys, and
/// each key is sent to the value beside it.
proof fn lemma_map_of_unique<V>(entries: Seq<(String, V)>)
    requires
        keys_unique(entries),
    ensures
        forall|k: Seq<char>|
            #[trigger] map_of(entries).contains_key(k) <==> exists|i: int|
                0 <= i < entries.len() && (#[trigger] entries[i]).0@ == k,
        forall|i: int|
            0 <= i < entries.len() ==> map_of(entries).contains_key((#[trigger] entries[i]).0@)
                && map_of(entries)[entries[i].0@] == entries[i].1,
{
    lemma_map_of_contains(entries);
    assert forall|i: int|
        0 <= i < entries.len() implies map_of(entries).contains_key(
        (#[trigger] entries[i]).0@,
    ) && map_of(entries)[entries[i].0@] == entries[i].1 by {
        lemma_map_of_index(entries, i);
    }
}

/// Removing the entry at `i` by swapping the last entry into its place
/// removes exactly the key at `i` from the map.
proof fn lemma_swap_remove_map<V>(pre: Seq<(String, V)>, i: int)
    requires
        keys_unique(pre),
        0 <= i < pre.len(),
    ensures
        keys_unique(pre.update(i, pre.last()).drop_last()),
        map_of(pre.update(i, pre.last()).drop_last()) =~= map_of(pre).remove(pre[i].0@),
{
    let mid = pre.update(i, pre.last()).drop_last();
    let k = pre[i].0@;
    lemma_map_of_unique(pre);
    assert(forall|j: int|
        0 <= j < mid.len() ==> #[trigger] mid[j] == (if j == i {
            pre[pre.len() - 1]
        } else {
            pre[j]
        }));
    assert forall|a: int, b: int|
        #![trigger mid[a], mid[b]]
        0 <= a < b < mid.len() implies mid[a].0@ != mid[b].0@ by {
        if a == i {
            assert(mid[a] == pre[pre.len() - 1]);
            assert(mid[b] == pre[b]);
        } else if b == i {
            assert(mid[b] == pre[pre.len() - 1]);
            assert(mid[a] == pre[a]);
        }
    }
    lemma_map_of_unique(mid);
    assert forall|k2: Seq<char>| #[trigger]
        map_of(mid).contains_key(k2) implies map_of(pre).remove(k).contains_key(k2) && map_of(
        mid,
    )[k2] == map_of(pre).remove(k)[k2] by {
        let j = choose|j: int| 0 <= j < mid.len() && (#[trigger] mid[j]).0@ == k2;
        if j == i {
            assert(pre[pre.len() - 1].0@ == k2);
            assert(j < pre.len() - 1);
            assert(k2 != k);
            assert(map_of(mid)[k2] == mid[j].1);
        } else {
            assert(pre[j].0@ == k2);
            assert(k2 != k);
        }
    }
    assert forall|k2: Seq<char>| #[trigger]
        map_of(pre).remove(k).contains_key(k2) implies map_of(mid).contains_key(k2) by {
        let j = choose|j: int| 0 <= j < pre.len() && (#[trigger] pre[j]).0@ == k2;
        if j == pre.len() - 1 {
            assert(j != i);
            assert(i < pre.len() - 1);
            assert(mid[i].0@ == k2);
        } else if j == i {
            assert(false);
        } else {
            assert(mid[j].0@ == k2);
        }
    }
}

/// Appending a fresh entry adds its binding to the map.
proof fn lemma_push_map<V>(pre: Seq<(String, V)>, k: String, v: V)
    requires
        keys_unique(pre),
        !map_of(pre).contains_key(k@),
    ensures
        keys_unique(pre.push((k, v))),
        map_of(pre.push((k, v))) == map_of(pre).insert(k@, v),
{
    let post = pre.push((k, v));
    lemma_map_of_unique(pre);
    assert(post.drop_last() =~= pre);
    assert(post.last() == (k, v));
    assert forall|a: int, b: int|
        #![trigger post[a], post[b]]
        0 <= a < b < post.len() implies post[a].0@ != post[b].0@ by {
        if b == post.len() - 1 {
            assert(post[a] == pre[a]);
        } else {
            assert(post[a] == pre[a]);
            assert(post[b] == pre[b]);
        }
    }
}

impl<V> View for StrMap<V> {
    type V = Map<Seq<char>, V>;

    closed spec fn view(&self) -> Map<Seq<char>, V> {
        map_of(self.entries@)
    }
}

impl<V> StrMap<V> {
    /// The representation invariant: the stored keys are pairwise distinct.
    pub closed spec fn wf(&self) -> bool {
        keys_unique(self.entries@)
    }

    pub fn new() -> (r: Self)
        ensures
            r.wf(),
            r@ == Map::<Seq<char>, V>::empty(),
    {
        let r = StrMap { entries: Vec::new() };
        proof {
            assert(r@ =~= Map::<Seq<char>, V>::empty());
        }
        r
    }

    /// Looks a key up and borrows the value stored under it, if any.
    pub fn get<'a>(&'a self, k: &str) -> (r: Option<&'a V>)
        requires
            self.wf(),
        ensures
            match r {
                Some(v) => self@.contains_key(k@) && *v == self@[k@],
                None => !self@.contains_key(k@),
            },
    {
        proof {
            lemma_map_of_unique(self.entries@);
        }
        let key: String = k.to_owned();
        let n = self.entries.len();
        let mut i: usize = 0;
        while i < n
            invariant
                n == self.entries@.len(),
                i <= n,
                key@ == k@,
                self.wf(),
                forall|j: int| 0 <= j < i ==> (#[trigger] self.entries@[j]).0@ != k@,
            decreases n - i,
        {
            if self.entries[i].0 == key {
                proof {
                    lemma_map_of_unique(self.entries@);
                }
                return Some(&self.entries[i].1);
            }
            i = i + 1;
        }
        proof {
            lemma_map_of_contains(self.entries@);
        }
        None
    }

    /// True exactly when a value is stored under the key.
    pub fn contains_key(&self, k: &str) -> (r: bool)
        requires
            self.wf(),
        ensures
            r == self@.contains_key(k@),
    {
        self.get(k).is_some()
    }

    /// Binds the key to the value, replacing any earlier binding.
    pub fn insert(&mut self, k: &str, v: V)
        requires
            old(self).wf(),
        ensures
            final(self).wf(),
            final(self)@ == old(self)@.insert(k@, v),
    {
        proof {
            lemma_map_of_unique(self.entries@);
        }
        let key: String = k.to_owned();
        let n = self.entries.len();
        let mut i: usize = 0;
        while i < n
            invariant
                n == self.entries@.len(),
                i <= n,
                key@ == k@,
                self.wf(),
                self@ == old(self)@,
                self.entries@ == old(self).entries@,
                forall|j: int| 0 <= j < i ==> (#[trigger] self.entries@[j]).0@ != k@,
            decreases n - i,
        {
            if self.entries[i].0 == key {
                proof {
                    lemma_swap_remove_map(self.entries@, i as int);
                }
                let _ = self.entries.swap_remove(i);
                proof {
                    lemma_map_of_contains(self.entries@);
                    lemma_push_map(self.entries@, key, v);
                }
                self.entries.push((key, v));
                proof {
                    assert(final(self)@ =~= old(self)@.insert(k@, v));
                }
                return ;
            }
            i = i + 1;
        }
        proof {
            lemma_map_of_contains(self.entries@);
            lemma_push_map(self.entries@, key, v);
        }
        self.entries.push((key, v));
    }

    /// Removes the binding for the key and hands its value back, if any.
    pub fn remove(&mut self, k: &str) -> (r: Option<V>)
        requires
            old(self).wf(),
        ensures
            final(self).wf(),
            match r {
                Some(v) => old(self)@.contains_key(k@) && v == old(self)@[k@] && final(self)@
                    == old(self)@.remove(k@),
                None => !old(self)@.contains_key(k@) && final(self)@ == old(self)@,
            },
    {
        proof {
            lemma_map_of_unique(self.entries@);
        }
        let key: String = k.to_owned();
        let n = self.entries.len();
        let mut i: usize = 0;
        while i < n
            invariant
                n == self.entries@.len(),
                i <= n,
                key@ == k@,
                self.wf(),
                self@ == old(self)@,
                self.entries@ == old(self).entries@,
                forall|j: int| 0 <= j < i ==> (#[trigger] self.entries@[j]).0@ != k@,
            decreases n - i,
        {
            if self.entries[i].0 == key {
                proof {
                    lemma_map_of_unique(self.entries@);
                    lemma_swap_remove_map(self.entries@, i as int);
                }
                let v = self.entries.swap_remove(i);
                return Some(v.1);
            }
            i = i + 1;
        }
        proof {
            lemma_map_of_contains(self.entries@);
        }
        None
    }
}

impl StrMap<String> {
    /// Builds keyed storage from a list of pairs; a later pair for a key
    /// overrides an earlier one, as `map_of` prescribes.
    pub fn from_pairs(pairs: &Vec<(String, String)>) -> (r: Self)
        ensures
            r.wf(),
            r@ == map_of(pairs@),
    {
        let n = pairs.len();
        let mut r = StrMap::new();
        let mut i: usize = 0;
        while i < n
            invariant
                n == pairs@.len(),
                i <= n,
                r.wf(),
                r@ == map_of(pairs@.take(i as int)),
            decreases n - i,
        {
            proof {
                assert(pairs@.take(i + 1).drop_last() =~= pairs@.take(i as int));
                assert(pairs@.take(i + 1).last() == pairs@[i as int]);
            }
            r.insert(pairs[i].0.as_str(), pairs[i].1.clone());
            i = i + 1;
        }
        proof {
            assert(pairs@.take(n as int) =~= pairs@);
        }
        r
    }
}

impl Clone for StrMap<String> {
    /// A copy with the same keys and the same text under each key.
    fn clone(&self) -> (r: Self)
        ensures
            r@ == self@,
            self.wf() ==> r.wf(),
    {
        let n = self.entries.len();
        let mut out: Vec<(String, String)> = Vec::new();
        let mut i: usize = 0;
        while i < n
            invariant
                n == self.entries@.len(),
                i <= n,
                out@.len() == i,
                forall|j: int| 0 <= j < i ==> out@[j] == self.entries@[j],
            decreases n - i,
        {
            out.push((self.entries[i].0.clone(), self.entries[i].1.clone()));
            i = i + 1;
        }
        let r = StrMap { entries: out };
        proof {
            assert(r.entries@ =~= self.entries@);
        }
        r
    }
}

} // verus!
