//! The search use case: file, text and workspace scans over any search
//! provider, and pattern recompilation over any pattern manager.

use vstd::prelude::*;
use crate::entities::error::TodoResult;
use crate::entities::file_matches::FileState;
use crate::entities::state::State;
use crate::ports::regex_manager::{join_keywords, key_views, RegexManager};
use crate::ports::searcher::Searcher;

verus! {

pub struct Search<T> {
    inner: T,
}

impl<T> Search<T> {
    /// The wrapped search provider.
    pub closed spec fn searcher(&self) -> T {
        self.inner
    }

    pub fn new(v: T) -> (r: Self)
        ensures
            r.searcher() == v,
    {
        Search { inner: v }
    }
}

impl<T: Searcher> Search<T> {
    /// Scans a file on disk; nothing when zero matches were found.
    pub fn search_in_path(&self, file: &str) -> (r: Option<FileState>)
        requires
            self.searcher().wf(),
        ensures
            r matches Some(f) ==> f.wf(),
    {
        self.inner.search_in_path(file)
    }

    /// Scans an in-memory buffer; nothing exactly when the provider finds
    /// no matching rows in it.
    pub fn search_in_text(&self, text: &str) -> (r: Option<FileState>)
        requires
            self.searcher().wf(),
        ensures
            match r {
                Some(f) => f.wf() && f@ == self.searcher().text_index(text@) && self.searcher()
                    .text_index(text@).len() > 0,
                None => self.searcher().text_index(text@).len() == 0,
            },
    {
        self.inner.search_in_text(text)
    }

    /// Recursively scans a workspace root, skipping deny-set directories.
    pub fn recurssive_search(&self, root: &str) -> (r: State)
        requires
            self.searcher().wf(),
        ensures
            r.wf(),
    {
        self.inner.recurssive_search(root)
    }
}

impl<T: RegexManager> Search<T> {
    /// Rebuilds the pattern as the alternation of the keywords; on failure
    /// the provider is left unchanged.
    pub fn update_regex(&mut self, key_words: &Vec<String>) -> (r: TodoResult<()>)
        ensures
            r is Err <==> (key_words@.len() == 0 || !T::compiles(
                join_keywords(key_views(key_words@)),
            )),
            r is Err ==> final(self).searcher() == old(self).searcher() && r->Err_0
                is InvalidRegex,
            r is Ok ==> final(self).searcher().pattern() == join_keywords(key_views(key_words@))
                && final(self).searcher().pattern_valid(),
    {
        self.inner.update_regex(key_words)
    }
}

} // verus!
