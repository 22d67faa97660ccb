//! The workspace index: every file that holds at least one match, keyed by
//! its path. A file with no matches has no entry, never an empty one.

use vstd::prelude::*;
use crate::entities::file_matches::FileState;
use crate::entities::strmap::StrMap;

verus! {

#[derive(Debug)]
pub struct State {
    inner: StrMap<FileState>,
}

impl View for State {
    type V = Map<Seq<char>, FileState>;

    closed spec fn view(&self) -> Map<Seq<char>, FileState> {
        self.inner@
    }
}

impl State {
    pub closed spec fn inner_wf(&self) -> bool {
        self.inner.wf()
    }

    pub open spec fn wf(&self) -> bool {
        &&& self.inner_wf()
        &&& forall|k: Seq<char>| #[trigger] self@.contains_key(k) ==> self@[k].wf()
    }

    /// Merges `other` in; on a key collision the entry of `other` wins.
    pub fn extend(&mut self, other: Self)
        requires
            old(self).wf(),
            other.wf(),
        ensures
            final(self).wf(),
            final(self)@ == old(self)@.union_prefer_right(other@),
    {
        let mut rest = other;
        let ghost orig_rest = rest@;
        loop
            invariant
                self.wf(),
                rest.wf(),
                self@.union_prefer_right(rest@) == old(self)@.union_prefer_right(orig_rest),
            ensures
                self.wf(),
                self@.union_prefer_right(rest@) == old(self)@.union_prefer_right(orig_rest),
                rest@ =~= Map::<Seq<char>, FileState>::empty(),
            decreases rest.inner.entries().len(),
        {
            let ghost pre_self = self@;
            let ghost pre_rest = rest@;
            match rest.inner.pop() {
                Some(p) => {
                    let ghost k = p.0@;
                    proof {
                        assert(pre_rest.contains_key(k) && pre_rest[k].wf());
                    }
                    self.insert(p.0, p.1);
                    proof {
                        assert(self@.union_prefer_right(rest@) =~= pre_self.union_prefer_right(
                            pre_rest,
                        ));
                    }
                },
                None => {
                    break ;
                },
            }
        }
        proof {
            assert(final(self)@ =~= final(self)@.union_prefer_right(
                Map::<Seq<char>, FileState>::empty(),
            ));
        }
    }

    /// Installs the file index for a path, overwriting any previous entry.
    pub fn insert(&mut self, file_name: String, matches: FileState)
        requires
            old(self).wf(),
            matches.wf(),
        ensures
            final(self).wf(),
            final(self)@ == old(self)@.insert(file_name@, matches),
    {
        let ghost key = file_name@;
        self.inner.insert(file_name, matches);
        proof {
            assert forall|k: Seq<char>| #[trigger] self@.contains_key(k) implies self@[k].wf() by {
                if k != key {
                    assert(old(self)@.contains_key(k));
                }
            }
        }
    }

    /// Unconditional overwrite, used when an edited document still has at
    /// least one match.
    pub fn replace(&mut self, file_name: String, new_matches: FileState)
        requires
            old(self).wf(),
            new_matches.wf(),
        ensures
            final(self).wf(),
            final(self)@ == old(self)@.insert(file_name@, new_matches),
    {
        self.insert(file_name, new_matches);
    }

    /// A one-entry index for a freshly scanned file.
    pub fn from_file_matches(file_name: String, matches: FileState) -> (r: Self)
        requires
            matches.wf(),
        ensures
            r.wf(),
            r@ == Map::<Seq<char>, FileState>::empty().insert(file_name@, matches),
    {
        let mut inner = StrMap::<FileState>::new();
        inner.insert(file_name, matches);
        State { inner }
    }

    /// The file's index, or nothing when the file has no matches.
    pub fn get(&self, file_name: &str) -> (r: Option<&FileState>)
        requires
            self.wf(),
        ensures
            match r {
                Some(f) => self@.contains_key(file_name@) && *f == self@[file_name@],
                None => !self@.contains_key(file_name@),
            },
    {
        self.inner.get(file_name)
    }

    /// Drops the file's entry, used when an edited document has no matches
    /// left.
    pub fn remove(&mut self, file_name: &str)
        requires
            old(self).wf(),
        ensures
            final(self).wf(),
            final(self)@ == old(self)@.remove(file_name@),
    {
        self.inner.remove(file_name);
        proof {
            assert forall|k: Seq<char>| #[trigger] self@.contains_key(k) implies self@[k].wf() by {
                assert(old(self)@.contains_key(k));
            }
        }
    }
}

impl Default for State {
    /// The empty index the server starts from.
    fn default() -> (r: Self)
        ensures
            r.wf(),
            r@ == Map::<Seq<char>, FileState>::empty(),
    {
        State { inner: StrMap::new() }
    }
}

/// Law: installing an entry for a path and then removing that path leaves the
/// index without an entry for it, whatever it held before; a lookup finds
/// nothing. This is how `State::replace` followed by `State::remove` composes.
pub proof fn lemma_replace_then_remove(
    m: Map<Seq<char>, FileState>,
    path: Seq<char>,
    f: FileState,
)
    ensures
        !m.insert(path, f).remove(path).contains_key(path),
{
}

} // verus!
