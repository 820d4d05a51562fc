use vstd::prelude::*;

verus! {

/// A key type usable in a `VecMap`: runtime equality must agree with
/// equality of the keys' views.
pub trait MapKey: View + Sized {
    fn key_eq(&self, other: &Self) -> (r: bool)
        ensures
            r == (self@ == other@),
    ;
}

impl MapKey for i32 {
    fn key_eq(&self, other: &Self) -> (r: bool) {
        *self == *other
    }
}

impl MapKey for u64 {
    fn key_eq(&self, other: &Self) -> (r: bool) {
        *self == *other
    }
}

impl MapKey for String {
    fn key_eq(&self, other: &Self) -> (r: bool) {
        let r = <String as PartialEq>::eq(self, other);
        r
    }
}

struct Entry<K, V> {
    key: K,
    value: V,
}

/// An association list behaving as a map: keys are unique, lookups scan in
/// insertion order.
pub struct VecMap<K: MapKey, V> {
    data: Vec<Entry<K, V>>,
}

spec fn entries_map<K: MapKey, V>(s: Seq<Entry<K, V>>) -> Map<<K as View>::V, V>
    decreases s.len(),
{
    if s.len() == 0 {
        Map::empty()
    } else {
        entries_map(s.drop_last()).insert(s.last().key@, s.last().value)
    }
}

spec fn distinct_keys<K: MapKey, V>(s: Seq<Entry<K, V>>) -> bool {
    forall|i: int, j: int| 0 <= i < j < s.len() ==> s[i].key@ != s[j].key@
}

proof fn lemma_entries_map_domain<K: MapKey, V>(s: Seq<Entry<K, V>>, k: <K as View>::V)
    ensures
        entries_map(s).contains_key(k) <==> exists|i: int| 0 <= i < s.len() && s[i].key@ == k,
    decreases s.len(),
{
    if s.len() > 0 {
        lemma_entries_map_domain(s.drop_last(), k);
        if s.last().key@ == k {
            assert(s[s.len() - 1].key@ == k);
        } else if entries_map(s).contains_key(k) {
            let i = choose|i: int| 0 <= i < s.drop_last().len() && s.drop_last()[i].key@ == k;
            assert(s[i].key@ == k);
        } else {
            assert forall|i: int| 0 <= i < s.len() && s[i].key@ == k implies false by {
                assert(i < s.len() - 1);
                assert(s.drop_last()[i].key@ == k);
            }
        }
    }
}

proof fn lemma_entries_map_at<K: MapKey, V>(s: Seq<Entry<K, V>>, i: int)
    requires
        distinct_keys(s),
        0 <= i < s.len(),
    ensures
        entries_map(s).contains_key(s[i].key@),
        entries_map(s)[s[i].key@] == s[i].value,
    decreases s.len(),
{
    if i == s.len() - 1 {
    } else {
        assert(s.drop_last()[i] == s[i]);
        lemma_entries_map_at(s.drop_last(), i);
        assert(s[i].key@ != s.last().key@);
    }
}

impl<K: MapKey, V> View for VecMap<K, V> {
    type V = Map<<K as View>::V, V>;

    closed spec fn view(&self) -> Map<<K as View>::V, V> {
        entries_map(self.data@)
    }
}

impl<K: MapKey, V> VecMap<K, V> {
    /// The keys stored are pairwise distinct; every map made by `new` and
    /// changed only through these methods satisfies this.
    pub closed spec fn wf(&self) -> bool {
        distinct_keys(self.data@)
    }

    pub fn new() -> (r: Self)
        ensures
            r@ == Map::<<K as View>::V, V>::empty(),
            r.wf(),
    {
        VecMap { data: Vec::new() }
    }

    fn find(&self, k: &K) -> (r: Option<usize>)
        ensures
            match r {
                Some(i) => i < self.data@.len() && self.data@[i as int].key@ == k@,
                None => forall|i: int| 0 <= i < self.data@.len() ==> self.data@[i].key@ != k@,
            },
    {
        let n = self.data.len();
        for i in 0..n
            invariant
                n == self.data@.len(),
                forall|j: int| 0 <= j < i ==> self.data@[j].key@ != k@,
        {
            if k.key_eq(&self.data[i].key) {
                return Some(i);
            }
        }
        None
    }

    pub fn insert(&mut self, key: K, value: V)
        requires
            old(self).wf(),
        ensures
            final(self).wf(),
            final(self)@ == old(self)@.insert(key@, value),
    {
        let ghost orig = self.data@;
        match self.find(&key) {
            Some(idx) => {
                proof {
                    lemma_remove_then_push(orig, idx as int, key@, value);
                }
                let _ = self.data.remove(idx);
                self.data.push(Entry { key, value });
                proof {
                    assert(self.data@ =~= orig.remove(idx as int).push(
                        Entry { key: self.data@.last().key, value: self.data@.last().value },
                    ));
                    assert(self@ =~= entries_map(orig).insert(self.data@.last().key@, value));
                }
            }
            None => {
                proof {
                    lemma_entries_map_domain(orig, key@);
                }
                self.data.push(Entry { key, value });
                proof {
                    assert(self.data@.drop_last() =~= orig);
                    assert(self@ =~= entries_map(orig).insert(self.data@.last().key@, value));
                }
            }
        }
    }

    pub fn get(&self, k: &K) -> (r: Option<&V>)
        requires
            self.wf(),
        ensures
            match r {
                Some(v) => self@.contains_key(k@) && *v == self@[k@],
                None => !self@.contains_key(k@),
            },
    {
        proof {
            lemma_entries_map_domain(self.data@, k@);
        }
        match self.find(k) {
            Some(idx) => {
                proof {
                    lemma_entries_map_at(self.data@, idx as int);
                }
                Some(&self.data[idx].value)
            }
            None => None,
        }
    }

    pub fn get_mut(&mut self, k: &K) -> (r: Option<&mut V>)
        requires
            old(self).wf(),
        ensures
            final(self).wf(),
            match r {
                Some(v) => old(self)@.contains_key(k@) && *v == old(self)@[k@] && final(self)@
                    == old(self)@.insert(k@, *final(v)),
                None => !old(self)@.contains_key(k@) && final(self)@ == old(self)@,
            },
    {
        proof {
            lemma_entries_map_domain(self.data@, k@);
        }
        let ghost orig = self.data@;
        match self.find(k) {
            Some(idx) => {
                proof {
                    lemma_entries_map_at(orig, idx as int);
                    lemma_update_value(orig, idx as int);
                }
                let entry = &mut self.data[idx];
                let r = &mut entry.value;
                Some(r)
            }
            None => None,
        }
    }

    pub fn remove(&mut self, k: &K) -> (r: Option<V>)
        requires
            old(self).wf(),
        ensures
            final(self).wf(),
            match r {
                Some(v) => old(self)@.contains_key(k@) && v == old(self)@[k@],
                None => !old(self)@.contains_key(k@),
            },
            final(self)@ == old(self)@.remove(k@),
    {
        proof {
            lemma_entries_map_domain(self.data@, k@);
        }
        match self.find(k) {
            Some(idx) => {
                proof {
                    lemma_entries_map_at(self.data@, idx as int);
                    lemma_remove_entry(self.data@, idx as int);
                }
                let entry = self.data.remove(idx);
                Some(entry.value)
            }
            None => {
                proof {
                    assert(old(self)@.remove(k@) =~= old(self)@);
                }
                None
            }
        }
    }
}

proof fn lemma_remove_entry<K: MapKey, V>(s: Seq<Entry<K, V>>, i: int)
    requires
        distinct_keys(s),
        0 <= i < s.len(),
    ensures
        distinct_keys(s.remove(i)),
        entries_map(s.remove(i)) == entries_map(s).remove(s[i].key@),
    decreases s.len(),
{
    lemma_entries_map_domain(s, s[i].key@);
    lemma_entries_map_domain(s.remove(i), s[i].key@);
    if i == s.len() - 1 {
        assert(s.remove(i) =~= s.drop_last());
        assert forall|k: <K as View>::V| #[trigger] entries_map(s.drop_last()).contains_key(k)
            implies entries_map(s).remove(s[i].key@).contains_key(k) && entries_map(
            s.drop_last(),
        )[k] == entries_map(s).remove(s[i].key@)[k] by {
            lemma_entries_map_domain(s.drop_last(), k);
            let j = choose|j: int| 0 <= j < s.drop_last().len() && s.drop_last()[j].key@ == k;
            assert(s[j] == s.drop_last()[j]);
            lemma_entries_map_at(s.drop_last(), j);
            lemma_entries_map_at(s, j);
        }
        assert forall|k: <K as View>::V| #[trigger] entries_map(s).remove(
            s[i].key@,
        ).contains_key(k) implies entries_map(s.drop_last()).contains_key(k) by {
            lemma_entries_map_domain(s, k);
            lemma_entries_map_domain(s.drop_last(), k);
            let j = choose|j: int| 0 <= j < s.len() && s[j].key@ == k;
            assert(j != i);
            assert(s.drop_last()[j] == s[j]);
        }
        assert(entries_map(s.remove(i)) =~= entries_map(s).remove(s[i].key@));
    } else {
        assert(s.remove(i).drop_last() =~= s.drop_last().remove(i));
        assert(s.remove(i).last() == s.last());
        lemma_remove_entry(s.drop_last(), i);
        assert(entries_map(s.remove(i)) =~= entries_map(s.drop_last().remove(i)).insert(
            s.last().key@,
            s.last().value,
        ));
        assert(s[i].key@ != s.last().key@);
        assert(entries_map(s.remove(i)) =~= entries_map(s).remove(s[i].key@));
    }
}

proof fn lemma_remove_then_push<K: MapKey, V>(s: Seq<Entry<K, V>>, i: int, k: <K as View>::V, v: V)
    requires
        distinct_keys(s),
        0 <= i < s.len(),
        s[i].key@ == k,
    ensures
        forall|e: Entry<K, V>| e.key@ == k ==> {
            &&& distinct_keys(s.remove(i).push(e))
            &&& (e.value == v ==> entries_map(s.remove(i).push(e)) == entries_map(s).insert(k, v))
        },
{
    lemma_remove_entry(s, i);
    assert forall|e: Entry<K, V>| e.key@ == k implies {
        &&& distinct_keys(s.remove(i).push(e))
        &&& (e.value == v ==> entries_map(s.remove(i).push(e)) == entries_map(s).insert(k, v))
    } by {
        let t = s.remove(i).push(e);
        lemma_entries_map_domain(s.remove(i), k);
        assert forall|a: int, b: int| 0 <= a < b < t.len() implies t[a].key@ != t[b].key@ by {
            if b < t.len() - 1 {
                assert(t[a] == s.remove(i)[a] && t[b] == s.remove(i)[b]);
            } else {
                assert(t[a] == s.remove(i)[a]);
            }
        }
        if e.value == v {
            assert(t.drop_last() =~= s.remove(i));
            assert(entries_map(t) =~= entries_map(s.remove(i)).insert(k, v));
            assert(entries_map(s.remove(i)).insert(k, v) =~= entries_map(s).insert(k, v));
        }
    }
}

proof fn lemma_update_value<K: MapKey, V>(s: Seq<Entry<K, V>>, i: int)
    requires
        distinct_keys(s),
        0 <= i < s.len(),
    ensures
        forall|e: Entry<K, V>| e.key@ == s[i].key@ ==> {
            &&& distinct_keys(s.update(i, e))
            &&& entries_map(s.update(i, e)) == entries_map(s).insert(e.key@, e.value)
        },
    decreases s.len(),
{
    assert forall|e: Entry<K, V>| e.key@ == s[i].key@ implies {
        &&& distinct_keys(s.update(i, e))
        &&& entries_map(s.update(i, e)) == entries_map(s).insert(e.key@, e.value)
    } by {
        let t = s.update(i, e);
        if i == s.len() - 1 {
            assert(t.drop_last() =~= s.drop_last());
            assert(entries_map(t) =~= entries_map(s).insert(e.key@, e.value));
        } else {
            assert(t.drop_last() =~= s.drop_last().update(i, e));
            assert(t.last() == s.last());
            lemma_update_value(s.drop_last(), i);
            assert(entries_map(t) =~= entries_map(s.drop_last().update(i, e)).insert(
                s.last().key@,
                s.last().value,
            ));
            assert(s[i].key@ != s.last().key@);
            assert(entries_map(t) =~= entries_map(s).insert(e.key@, e.value));
        }
    }
}

} // verus!
