//! A string-keyed association map backed by a vector of entries with
//! pairwise-distinct keys. Abstractly a value of this type is a
//! `Map<Seq<char>, V::V>`; every operation states its effect on that map.

use vstd::prelude::*;

verus! {

/// The map folded from a sequence of key/value entries, later entries
/// overriding earlier ones.
pub open spec fn entries_map<V: View>(s: Seq<(String, V)>) -> Map<Seq<char>, V::V>
    decreases s.len(),
{
    if s.len() == 0 {
        Map::empty()
    } else {
        entries_map(s.drop_last()).insert(s.last().0@, s.last().1@)
    }
}

/// Some entry of `s` carries the key `k`.
pub open spec fn has_key<V>(s: Seq<(String, V)>, k: Seq<char>) -> bool {
    exists|i: int| 0 <= i < s.len() && (#[trigger] s[i]).0@ == k
}

/// Pairwise-distinct keys, compared as character sequences.
pub open spec fn distinct_keys<V>(s: Seq<(String, V)>) -> bool {
    forall|i: int, j: int| 0 <= i < j < s.len() ==> (#[trigger] s[i]).0@ != (#[trigger] s[j]).0@
}

/// A key is in the folded map exactly when some entry carries it.
pub proof fn lemma_entries_map_dom<V: View>(s: Seq<(String, V)>)
    ensures
        forall|k: Seq<char>| #[trigger] entries_map(s).contains_key(k) <==> has_key(s, k),
    decreases s.len(),
{
    if s.len() > 0 {
        lemma_entries_map_dom(s.drop_last());
        assert forall|k: Seq<char>| #[trigger] entries_map(s).contains_key(k) implies has_key(
            s,
            k,
        ) by {
            if k == s.last().0@ {
                assert((s[s.len() - 1]).0@ == k);
            } else {
                assert(entries_map(s.drop_last()).contains_key(k));
                let i = choose|i: int|
                    0 <= i < s.drop_last().len() && (#[trigger] s.drop_last()[i]).0@ == k;
                assert((s[i]).0@ == k);
            }
        }
        assert forall|k: Seq<char>| has_key(s, k) implies #[trigger] entries_map(s).contains_key(
            k,
        ) by {
            let i = choose|i: int| 0 <= i < s.len() && (#[trigger] s[i]).0@ == k;
            if i < s.len() - 1 {
                assert((s.drop_last()[i]).0@ == k);
                assert(has_key(s.drop_last(), k));
                assert(entries_map(s.drop_last()).contains_key(k));
            } else {
                assert(k == s.last().0@);
            }
        }
    }
}

/// With distinct keys, the folded map sends each entry's key to its value.
pub proof fn lemma_entries_map_index<V: View>(s: Seq<(String, V)>, i: int)
    requires
        distinct_keys(s),
        0 <= i < s.len(),
    ensures
        entries_map(s).contains_key(s[i].0@),
        entries_map(s)[s[i].0@] == s[i].1@,
    decreases s.len(),
{
    if i < s.len() - 1 {
        assert(distinct_keys(s.drop_last()));
        assert(s.drop_last()[i] == s[i]);
        lemma_entries_map_index(s.drop_last(), i);
        assert((s[i]).0@ != (s[s.len() - 1]).0@);
    }
}

/// Appending an entry inserts its key/value pair into the folded map.
pub proof fn lemma_entries_map_push<V: View>(s: Seq<(String, V)>, e: (String, V))
    ensures
        entries_map(s.push(e)) == entries_map(s).insert(e.0@, e.1@),
{
    assert(s.push(e).drop_last() =~= s);
    assert(s.push(e).last() == e);
}

/// With distinct keys, removing an entry removes exactly its key from the
/// folded map.
pub proof fn lemma_entries_map_remove<V: View>(s: Seq<(String, V)>, i: int)
    requires
        distinct_keys(s),
        0 <= i < s.len(),
    ensures
        entries_map(s.remove(i)) == entries_map(s).remove(s[i].0@),
    decreases s.len(),
{
    if i == s.len() - 1 {
        assert(s.remove(i) =~= s.drop_last());
        lemma_entries_map_dom(s.drop_last());
        let key = (s[i]).0@;
        assert(!entries_map(s.drop_last()).contains_key(key)) by {
            if entries_map(s.drop_last()).contains_key(key) {
                let j = choose|j: int|
                    0 <= j < s.drop_last().len() && (#[trigger] s.drop_last()[j]).0@ == key;
                assert((s[j]).0@ == (s[i]).0@);
            }
        }
        assert(entries_map(s.drop_last()).insert(key, s.last().1@).remove(key) =~= entries_map(
            s.drop_last(),
        ));
    } else {
        let t = s.remove(i);
        assert(t.drop_last() =~= s.drop_last().remove(i));
        assert(distinct_keys(s.drop_last()));
        lemma_entries_map_remove(s.drop_last(), i);
        assert(t.last() == s.last());
        assert(s.drop_last()[i] == s[i]);
        assert(entries_map(t) == entries_map(s.drop_last()).remove(s[i].0@).insert(
            s.last().0@,
            s.last().1@,
        ));
        assert((s[i]).0@ != (s[s.len() - 1]).0@);
        assert(entries_map(s.drop_last()).remove(s[i].0@).insert(s.last().0@, s.last().1@)
            =~= entries_map(s.drop_last()).insert(s.last().0@, s.last().1@).remove(s[i].0@));
    }
}

/// With distinct keys, the folded map has exactly one key per entry.
pub proof fn lemma_entries_map_len<V: View>(s: Seq<(String, V)>)
    requires
        distinct_keys(s),
    ensures
        entries_map(s).dom().finite(),
        entries_map(s).dom().len() == s.len(),
    decreases s.len(),
{
    broadcast use vstd::set::axiom_set_insert_len;

    if s.len() > 0 {
        assert(distinct_keys(s.drop_last()));
        lemma_entries_map_len(s.drop_last());
        lemma_entries_map_dom(s.drop_last());
        assert(!entries_map(s.drop_last()).contains_key(s.last().0@)) by {
            if entries_map(s.drop_last()).contains_key(s.last().0@) {
                let j = choose|j: int|
                    0 <= j < s.drop_last().len() && (#[trigger] s.drop_last()[j]).0@
                        == s.last().0@;
                assert((s[j]).0@ == (s[s.len() - 1]).0@);
            }
        }
    }
}

/// An association map from string keys to values; see the module doc.
pub struct AssocMap<V: View> {
    entries: Vec<(String, V)>,
}

impl<V: View> View for AssocMap<V> {
    type V = Map<Seq<char>, V::V>;

    closed spec fn view(&self) -> Map<Seq<char>, V::V> {
        entries_map(self.entries@)
    }
}

impl<V: View> AssocMap<V> {
    #[verifier::type_invariant]
    spec fn wf(self) -> bool {
        distinct_keys(self.entries@)
    }

    /// The empty map.
    pub fn new() -> (m: Self)
        ensures
            m@ == Map::<Seq<char>, V::V>::empty(),
    {
        AssocMap { entries: Vec::new() }
    }

    /// The index of the entry carrying `k`, if any.
    fn find_index(&self, k: &String) -> (r: Option<usize>)
        ensures
            match r {
                Some(i) => i < self.entries@.len() && self.entries@[i as int].0@ == k@,
                None => !self@.contains_key(k@),
            },
    {
        proof {
            use_type_invariant(&*self);
            lemma_entries_map_dom(self.entries@);
        }
        let n = self.entries.len();
        let mut i: usize = 0;
        while i < n
            invariant
                n == self.entries@.len(),
                i <= n,
                forall|j: int| 0 <= j < i ==> (#[trigger] self.entries@[j]).0@ != k@,
            decreases n - i,
        {
            if self.entries[i].0 == *k {
                return Some(i);
            }
            i += 1;
        }
        proof {
            assert(!has_key(self.entries@, k@)) by {
                if has_key(self.entries@, k@) {
                    let j = choose|j: int|
                        0 <= j < self.entries@.len() && (#[trigger] self.entries@[j]).0@ == k@;
                }
            }
        }
        None
    }

    /// Whether `k` is in the map.
    pub fn contains_key(&self, k: &String) -> (r: bool)
        ensures
            r == self@.contains_key(k@),
    {
        proof {
            use_type_invariant(&*self);
            lemma_entries_map_dom(self.entries@);
        }
        match self.find_index(k) {
            Some(i) => {
                proof {
                    assert((self.entries@[i as int]).0@ == k@);
                    assert(has_key(self.entries@, k@));
                }
                true
            },
            None => false,
        }
    }

    /// The number of keys in the map.
    pub fn len(&self) -> (r: usize)
        ensures
            r == self@.dom().len(),
    {
        proof {
            use_type_invariant(&*self);
            lemma_entries_map_len(self.entries@);
        }
        self.entries.len()
    }

    /// A reference to the value at `k`, if any.
    pub fn get(&self, k: &String) -> (r: Option<&V>)
        ensures
            match r {
                Some(v) => self@.contains_key(k@) && v@ == self@[k@],
                None => !self@.contains_key(k@),
            },
    {
        proof {
            use_type_invariant(&*self);
        }
        match self.find_index(k) {
            Some(i) => {
                proof {
                    lemma_entries_map_index(self.entries@, i as int);
                }
                Some(&self.entries[i].1)
            },
            None => None,
        }
    }

    /// Maps `k` to `v`, returning the value `k` was mapped to before, if any.
    pub fn insert(&mut self, k: String, v: V) -> (prev: Option<V>)
        ensures
            final(self)@ == old(self)@.insert(k@, v@),
            match prev {
                Some(p) => old(self)@.contains_key(k@) && p@ == old(self)@[k@],
                None => !old(self)@.contains_key(k@),
            },
    {
        let ghost kk = k@;
        let ghost vv = v@;
        let prev = self.remove(&k);
        proof {
            use_type_invariant(&*self);
        }
        let ghost removed = self.entries@;
        let mut entries: Vec<(String, V)> = Vec::new();
        std::mem::swap(&mut entries, &mut self.entries);
        entries.push((k, v));
        proof {
            lemma_entries_map_dom(removed);
            assert(!entries_map(removed).contains_key(kk));
            assert forall|j: int| 0 <= j < removed.len() implies (#[trigger] removed[j]).0@
                != kk by {
                if removed[j].0@ == kk {
                    assert(has_key(removed, kk));
                }
            }
            assert forall|a: int, b: int| 0 <= a < b < entries@.len() implies (
            #[trigger] entries@[a]).0@ != (#[trigger] entries@[b]).0@ by {
                if b == entries@.len() - 1 {
                    assert(entries@[a] == removed[a]);
                    assert(entries@[b].0@ == kk);
                } else {
                    assert(entries@[a] == removed[a]);
                    assert(entries@[b] == removed[b]);
                }
            }
            lemma_entries_map_push(removed, entries@.last());
            assert(entries@.drop_last() =~= removed);
        }
        std::mem::swap(&mut entries, &mut self.entries);
        proof {
            assert(old(self)@.remove(kk).insert(kk, vv) =~= old(self)@.insert(kk, vv));
        }
        prev
    }

    /// Removes `k` from the map, returning the value it was mapped to, if any.
    pub fn remove(&mut self, k: &String) -> (prev: Option<V>)
        ensures
            final(self)@ == old(self)@.remove(k@),
            match prev {
                Some(p) => old(self)@.contains_key(k@) && p@ == old(self)@[k@],
                None => !old(self)@.contains_key(k@),
            },
    {
        proof {
            use_type_invariant(&*self);
        }
        match self.find_index(k) {
            Some(i) => {
                proof {
                    lemma_entries_map_index(self.entries@, i as int);
                    lemma_entries_map_remove(self.entries@, i as int);
                }
                let ghost before = self.entries@;
                let mut entries: Vec<(String, V)> = Vec::new();
                std::mem::swap(&mut entries, &mut self.entries);
                let (_, v) = entries.remove(i);
                proof {
                    assert forall|a: int, b: int| 0 <= a < b < entries@.len() implies (
                    #[trigger] entries@[a]).0@ != (#[trigger] entries@[b]).0@ by {
                        if a < i {
                            assert(entries@[a] == before[a]);
                        } else {
                            assert(entries@[a] == before[a + 1]);
                        }
                        if b < i {
                            assert(entries@[b] == before[b]);
                        } else {
                            assert(entries@[b] == before[b + 1]);
                        }
                    }
                }
                std::mem::swap(&mut entries, &mut self.entries);
                Some(v)
            },
            None => {
                proof {
                    assert(self@.remove(k@) =~= self@);
                }
                None
            },
        }
    }

    /// The entries of the map as a vector with pairwise-distinct keys that
    /// covers exactly the map's keys.
    pub fn into_entries(self) -> (out: Vec<(String, V)>)
        ensures
            distinct_keys(out@),
            out@.len() == self@.dom().len(),
            forall|i: int|
                0 <= i < out@.len() ==> self@.contains_key((#[trigger] out@[i]).0@) && out@[i].1@
                    == self@[out@[i].0@],
            forall|k: Seq<char>| #[trigger] self@.contains_key(k) ==> has_key(out@, k),
    {
        proof {
            use_type_invariant(&self);
            lemma_entries_map_dom(self.entries@);
            lemma_entries_map_len(self.entries@);
            assert forall|i: int| 0 <= i < self.entries@.len() implies self@.contains_key(
                (#[trigger] self.entries@[i]).0@,
            ) && self.entries@[i].1@ == self@[self.entries@[i].0@] by {
                lemma_entries_map_index(self.entries@, i);
            }
        }
        let AssocMap { entries } = self;
        entries
    }
}

impl AssocMap<u64> {
    /// All entries of the map, with each key cloned, in some order that
    /// covers exactly the map's keys.
    pub fn entries_cloned(&self) -> (out: Vec<(String, u64)>)
        ensures
            distinct_keys(out@),
            out@.len() == self@.dom().len(),
            forall|i: int|
                0 <= i < out@.len() ==> self@.contains_key((#[trigger] out@[i]).0@) && out@[i].1
                    == self@[out@[i].0@],
            forall|k: Seq<char>| #[trigger] self@.contains_key(k) ==> has_key(out@, k),
    {
        proof {
            use_type_invariant(&*self);
            lemma_entries_map_dom(self.entries@);
            lemma_entries_map_len(self.entries@);
            assert forall|i: int| 0 <= i < self.entries@.len() implies self@.contains_key(
                (#[trigger] self.entries@[i]).0@,
            ) && self.entries@[i].1 == self@[self.entries@[i].0@] by {
                lemma_entries_map_index(self.entries@, i);
            }
        }
        let n = self.entries.len();
        let mut out: Vec<(String, u64)> = Vec::new();
        let mut i: usize = 0;
        while i < n
            invariant
                n == self.entries@.len(),
                i <= n,
                out@.len() == i,
                forall|j: int|
                    0 <= j < i ==> (#[trigger] out@[j]).0@ == self.entries@[j].0@ && out@[j].1
                        == self.entries@[j].1,
            decreases n - i,
        {
            let key = self.entries[i].0.clone();
            let val = self.entries[i].1;
            out.push((key, val));
            i += 1;
        }
        proof {
            assert forall|a: int, b: int| 0 <= a < b < out@.len() implies (#[trigger] out@[a]).0@
                != (#[trigger] out@[b]).0@ by {
                assert(self.entries@[a].0@ != self.entries@[b].0@);
            }
            assert forall|k: Seq<char>| #[trigger] self@.contains_key(k) implies has_key(
                out@,
                k,
            ) by {
                let j = choose|j: int|
                    0 <= j < self.entries@.len() && (#[trigger] self.entries@[j]).0@ == k;
                assert((out@[j]).0@ == k);
            }
        }
        out
    }
}

} // verus!
