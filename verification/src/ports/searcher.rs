//! The search capability: single-file scan, single-text scan, recursive
//! workspace scan, and the skip policy for the recursive walk.

use vstd::prelude::*;
use crate::entities::file_matches::{FileState, RowV};
use crate::entities::state::State;
use crate::ports::regex_manager::RegexManager;

verus! {

/// Whether a directory entry name belongs to the fixed deny-set that the
/// recursive scan never descends into.
pub open spec fn skip_name(name: Seq<char>) -> bool {
    ||| name == "."@
    ||| name == ".."@
    ||| name == "node_modules"@
    ||| name == "target"@
    ||| name == ".git"@
}

/// Text equality of two string slices.
pub fn str_eq(a: &str, b: &str) -> (r: bool)
    ensures
        r == (a@ == b@),
{
    let owned_a: String = a.to_owned();
    let owned_b: String = b.to_owned();
    owned_a == owned_b
}

/// The skip policy: exactly the names of the deny-set are skipped, so
/// sibling directories under any other name are still visited.
pub fn should_skip_name(name: &str) -> (r: bool)
    ensures
        r == skip_name(name@),
{
    str_eq(name, ".") || str_eq(name, "..") || str_eq(name, "node_modules") || str_eq(
        name,
        "target",
    ) || str_eq(name, ".git")
}

/// The search capability the search use case needs.
pub trait Searcher: Sized {
    /// Whether the provider is ready to search: its pattern compiled.
    spec fn wf(&self) -> bool;

    /// The rows with matches the provider finds in a text.
    spec fn text_index(&self, text: Seq<char>) -> Seq<RowV>;

    /// Scans a file on disk; nothing when zero matches were found. The
    /// result depends on the disk, so only well-formedness is promised.
    fn search_in_path(&self, file: &str) -> (r: Option<FileState>)
        requires
            self.wf(),
        ensures
            r matches Some(f) ==> f.wf(),
    ;

    /// Scans an in-memory buffer; nothing exactly when the provider finds
    /// no matching rows in it.
    fn search_in_text(&self, text: &str) -> (r: Option<FileState>)
        requires
            self.wf(),
        ensures
            match r {
                Some(f) => f.wf() && f@ == self.text_index(text@) && self.text_index(
                    text@,
                ).len() > 0,
                None => self.text_index(text@).len() == 0,
            },
    ;

    /// Recursively scans a workspace root, skipping deny-set directories.
    fn recurssive_search(&self, root: &str) -> (r: State)
        requires
            self.wf(),
        ensures
            r.wf(),
    ;

    /// The skip policy for one directory entry name.
    fn should_skip(&self, name: &str) -> (r: bool)
        ensures
            r == skip_name(name@),
    ;
}

/// A provider that can both search and recompile its pattern.
pub trait RegexSearcher: Searcher + RegexManager {
    /// A freshly compiled pattern makes the provider ready to search.
    proof fn valid_implies_wf(&self)
        requires
            self.pattern_valid(),
        ensures
            self.wf(),
    ;
}

} // verus!
