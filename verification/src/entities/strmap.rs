//! A string-keyed map backed by an association list, with a `Map` view.
//!
//! Both the workspace index (path -> file index) and the color palette
//! (keyword -> colors) are maps keyed by text; this container gives them one
//! verified implementation with insert, lookup, removal and draining.

use vstd::prelude::*;

verus! {

/// The map denoted by an association list; later entries win.
pub open spec fn assoc_map<V>(s: Seq<(String, V)>) -> Map<Seq<char>, V>
    decreases s.len(),
{
    if s.len() == 0 {
        Map::empty()
    } else {
        assoc_map(s.drop_last()).insert(s.last().0@, s.last().1)
    }
}

/// No two entries share a key.
pub open spec fn unique_keys<V>(s: Seq<(String, V)>) -> bool {
    forall|i: int, j: int| 0 <= i < j < s.len() ==> s[i].0@ != s[j].0@
}

pub proof fn lemma_assoc_map_contains<V>(s: Seq<(String, V)>, k: Seq<char>)
    ensures
        assoc_map(s).contains_key(k) <==> exists|i: int| 0 <= i < s.len() && s[i].0@ == k,
    decreases s.len(),
{
    if s.len() > 0 {
        lemma_assoc_map_contains(s.drop_last(), k);
        if s.last().0@ != k && assoc_map(s).contains_key(k) {
            let i = choose|i: int| 0 <= i < s.drop_last().len() && s.drop_last()[i].0@ == k;
            assert(s[i].0@ == k);
        }
        if exists|i: int| 0 <= i < s.len() && s[i].0@ == k {
            let i = choose|i: int| 0 <= i < s.len() && s[i].0@ == k;
            if i < s.len() - 1 {
                assert(s.drop_last()[i].0@ == k);
            }
        }
    }
}

pub proof fn lemma_assoc_map_get<V>(s: Seq<(String, V)>, i: int)
    requires
        unique_keys(s),
        0 <= i < s.len(),
    ensures
        assoc_map(s).contains_key(s[i].0@),
        assoc_map(s)[s[i].0@] == s[i].1,
    decreases s.len(),
{
    if i == s.len() - 1 {
        lemma_assoc_map_contains(s, s[i].0@);
    } else {
        lemma_assoc_map_get(s.drop_last(), i);
        assert(s.drop_last()[i] == s[i]);
    }
}

pub proof fn lemma_assoc_map_dom_len<V>(s: Seq<(String, V)>)
    requires
        unique_keys(s),
    ensures
        assoc_map(s).dom().finite(),
        assoc_map(s).dom().len() == s.len(),
    decreases s.len(),
{
    if s.len() == 0 {
    } else {
        lemma_assoc_map_dom_len(s.drop_last());
        lemma_assoc_map_contains(s.drop_last(), s.last().0@);
    }
}

/// Updating the entry that holds a key denotes inserting over that key.
pub proof fn lemma_assoc_map_update<V>(s: Seq<(String, V)>, i: int, k: String, v: V)
    requires
        unique_keys(s),
        0 <= i < s.len(),
        k@ == s[i].0@,
    ensures
        assoc_map(s.update(i, (k, v))) =~= assoc_map(s).insert(k@, v),
    decreases s.len(),
{
    let t = s.update(i, (k, v));
    if i == s.len() - 1 {
        assert(t.drop_last() =~= s.drop_last());
    } else {
        lemma_assoc_map_update(s.drop_last(), i, k, v);
        assert(t.drop_last() =~= s.drop_last().update(i, (k, v)));
        assert(t.last() == s.last());
        assert(s.drop_last()[i] == s[i]);
        assert(s[i].0@ != s.last().0@);
    }
}

/// Removing the entry that holds a key denotes removing that key.
pub proof fn lemma_assoc_map_remove<V>(s: Seq<(String, V)>, i: int)
    requires
        unique_keys(s),
        0 <= i < s.len(),
    ensures
        assoc_map(s.remove(i)) =~= assoc_map(s).remove(s[i].0@),
    decreases s.len(),
{
    let t = s.remove(i);
    if i == s.len() - 1 {
        assert(t =~= s.drop_last());
        lemma_assoc_map_contains(s.drop_last(), s.last().0@);
    } else {
        lemma_assoc_map_remove(s.drop_last(), i);
        assert(t.drop_last() =~= s.drop_last().remove(i));
        assert(t.last() == s.last());
        assert(s.drop_last()[i] == s[i]);
        assert(s[i].0@ != s.last().0@);
        lemma_assoc_map_contains(s.drop_last().remove(i), s[i].0@);
    }
}

/// Appending a fresh entry denotes inserting its key.
pub proof fn lemma_assoc_map_push<V>(s: Seq<(String, V)>, k: String, v: V)
    ensures
        assoc_map(s.push((k, v))) =~= assoc_map(s).insert(k@, v),
{
    assert(s.push((k, v)).drop_last() =~= s);
}

/// A string-keyed map: an association list whose keys are unique.
#[derive(Debug)]
pub struct StrMap<V> {
    inner: Vec<(String, V)>,
}

impl<V> View for StrMap<V> {
    type V = Map<Seq<char>, V>;

    closed spec fn view(&self) -> Map<Seq<char>, V> {
        assoc_map(self.inner@)
    }
}

impl<V> StrMap<V> {
    /// The entries in insertion order; the basis of the map view.
    pub closed spec fn entries(&self) -> Seq<(String, V)> {
        self.inner@
    }

    pub open spec fn wf(&self) -> bool {
        unique_keys(self.entries())
    }

    pub fn new() -> (r: Self)
        ensures
            r@ == Map::<Seq<char>, V>::empty(),
            r.wf(),
            r.entries().len() == 0,
    {
        StrMap { inner: Vec::new() }
    }

    /// The position of the entry holding `name`, if any.
    fn index_of(&self, name: &str) -> (r: Option<usize>)
        ensures
            match r {
                Some(i) => i < self.entries().len() && self.entries()[i as int].0@ == name@,
                None => forall|i: int|
                    0 <= i < self.entries().len() ==> self.entries()[i].0@ != name@,
            },
    {
        let owned: String = name.to_owned();
        let n = self.inner.len();
        for i in 0..n
            invariant
                n == self.entries().len(),
                owned@ == name@,
                forall|j: int| 0 <= j < i ==> self.entries()[j].0@ != name@,
        {
            if self.inner[i].0 == owned {
                return Some(i);
            }
        }
        None
    }

    /// Inserts or overwrites the entry for `name`.
    pub fn insert(&mut self, name: String, v: V)
        requires
            old(self).wf(),
        ensures
            final(self).wf(),
            final(self)@ == old(self)@.insert(name@, v),
            old(self)@.contains_key(name@) ==> final(self).entries().len() == old(
                self,
            ).entries().len(),
            !old(self)@.contains_key(name@) ==> final(self).entries().len() == old(
                self,
            ).entries().len() + 1,
    {
        proof {
            lemma_assoc_map_contains(self.entries(), name@);
        }
        match self.index_of(name.as_str()) {
            Some(i) => {
                proof {
                    lemma_assoc_map_update(self.entries(), i as int, name, v);
                }
                self.inner[i] = (name, v);
            },
            None => {
                proof {
                    lemma_assoc_map_push(self.entries(), name, v);
                }
                self.inner.push((name, v));
            },
        }
    }

    /// Looks the key up; absence means the map has no entry for it.
    pub fn get(&self, name: &str) -> (r: Option<&V>)
        requires
            self.wf(),
        ensures
            match r {
                Some(v) => self@.contains_key(name@) && *v == self@[name@],
                None => !self@.contains_key(name@),
            },
    {
        proof {
            lemma_assoc_map_contains(self.entries(), name@);
        }
        match self.index_of(name) {
            Some(i) => {
                proof {
                    lemma_assoc_map_get(self.entries(), i as int);
                }
                Some(&self.inner[i].1)
            },
            None => None,
        }
    }

    /// Removes the entry for `name`, if any.
    pub fn remove(&mut self, name: &str)
        requires
            old(self).wf(),
        ensures
            final(self).wf(),
            final(self)@ == old(self)@.remove(name@),
    {
        proof {
            lemma_assoc_map_contains(self.entries(), name@);
        }
        match self.index_of(name) {
            Some(i) => {
                proof {
                    lemma_assoc_map_remove(self.entries(), i as int);
                }
                let _ = self.inner.remove(i);
            },
            None => {
                proof {
                    assert(old(self)@.remove(name@) =~= old(self)@);
                }
            },
        }
    }

    /// Takes out the most recently inserted entry; empties the map in steps.
    pub fn pop(&mut self) -> (r: Option<(String, V)>)
        requires
            old(self).wf(),
        ensures
            final(self).wf(),
            match r {
                Some(p) => {
                    &&& old(self)@.contains_key(p.0@)
                    &&& old(self)@[p.0@] == p.1
                    &&& final(self)@ == old(self)@.remove(p.0@)
                    &&& final(self).entries().len() == old(self).entries().len() - 1
                },
                None => {
                    &&& old(self)@ == final(self)@
                    &&& old(self)@ =~= Map::<Seq<char>, V>::empty()
                    &&& final(self).entries().len() == old(self).entries().len()
                },
            },
    {
        let n = self.inner.len();
        if n == 0 {
            return None;
        }
        proof {
            let s = self.entries();
            lemma_assoc_map_get(s, n - 1);
            lemma_assoc_map_remove(s, n - 1);
            assert(s.remove(n - 1) =~= s.drop_last());
        }
        let p = self.inner.remove(n - 1);
        Some(p)
    }

    /// How many entries the map holds.
    pub fn len(&self) -> (r: usize)
        requires
            self.wf(),
        ensures
            r == self@.dom().len(),
            r == self.entries().len(),
    {
        proof {
            lemma_assoc_map_dom_len(self.entries());
        }
        self.inner.len()
    }

    /// The keys, in insertion order; exactly the view's domain.
    pub fn keys(&self) -> (r: Vec<String>)
        requires
            self.wf(),
        ensures
            r@.len() == self.entries().len(),
            forall|i: int| 0 <= i < r@.len() ==> r@[i]@ == self.entries()[i].0@,
            forall|k: Seq<char>| self@.contains_key(k) <==> exists|i: int|
                0 <= i < r@.len() && r@[i]@ == k,
    {
        let n = self.inner.len();
        let mut r: Vec<String> = Vec::new();
        for i in 0..n
            invariant
                n == self.entries().len(),
                r@.len() == i,
                forall|j: int| 0 <= j < i ==> r@[j]@ == self.entries()[j].0@,
        {
            let k = self.inner[i].0.clone();
            r.push(k);
        }
        proof {
            assert forall|k: Seq<char>| self@.contains_key(k) implies exists|i: int|
                0 <= i < r@.len() && r@[i]@ == k by {
                lemma_assoc_map_contains(self.entries(), k);
                let i = choose|i: int|
                    0 <= i < self.entries().len() && self.entries()[i].0@ == k;
                assert(r@[i]@ == k);
            }
            assert forall|k: Seq<char>| (exists|i: int| 0 <= i < r@.len() && r@[i]@ == k)
                implies self@.contains_key(k) by {
                let i = choose|i: int| 0 <= i < r@.len() && r@[i]@ == k;
                assert(self.entries()[i].0@ == k);
                lemma_assoc_map_contains(self.entries(), k);
            }
        }
        r
    }
}

} // verus!
