//! The pattern-management capability: rebuilding the keyword pattern.

use vstd::prelude::*;
use crate::entities::error::{Error, TodoResult};
use vstd::string::StringExecFns;

verus! {

/// The views of a keyword list.
pub open spec fn key_views(s: Seq<String>) -> Seq<Seq<char>> {
    s.map_values(|k: String| k@)
}

/// The alternation of the given keywords, separated by `|`.
pub open spec fn join_keywords(keys: Seq<Seq<char>>) -> Seq<char>
    decreases keys.len(),
{
    if keys.len() == 0 {
        Seq::empty()
    } else if keys.len() == 1 {
        keys[0]
    } else {
        join_keywords(keys.drop_last()) + seq!['|'] + keys.last()
    }
}

/// Joins the keywords with `|` into one pattern.
pub fn join_with_pipe(keys: &Vec<String>) -> (r: String)
    ensures
        r@ == join_keywords(key_views(keys@)),
{
    let ghost views = key_views(keys@);
    let n = keys.len();
    let mut out = String::new();
    let mut i: usize = 0;
    while i < n
        invariant
            n == keys@.len(),
            views == key_views(keys@),
            0 <= i <= n,
            out@ == join_keywords(views.take(i as int)),
        decreases n - i,
    {
        if i > 0 {
            out.append("|");
            proof {
                reveal_strlit("|");
                assert("|"@ =~= seq!['|']);
            }
        }
        out.append(keys[i].as_str());
        proof {
            assert(views.take(i + 1).drop_last() =~= views.take(i as int));
            if i == 0 {
                assert(out@ =~= join_keywords(views.take(1)));
            }
        }
        i += 1;
    }
    proof {
        assert(views.take(n as int) =~= views);
    }
    out
}

/// The pattern-management capability: swap in a new keyword alternation, or
/// fail and leave the old pattern untouched.
pub trait RegexManager: Sized {
    /// The pattern the provider currently holds.
    spec fn pattern(&self) -> Seq<char>;

    /// Whether the held pattern compiled.
    spec fn pattern_valid(&self) -> bool;

    /// Whether a pattern text compiles for this provider.
    spec fn compiles(p: Seq<char>) -> bool;

    /// Rebuilds the pattern as the alternation of the keywords. Fails with
    /// `InvalidRegex` exactly when the list is empty or the alternation does
    /// not compile, and then leaves the provider unchanged.
    fn update_regex(&mut self, key_words: &Vec<String>) -> (r: TodoResult<()>)
        ensures
            r is Err <==> (key_words@.len() == 0 || !Self::compiles(
                join_keywords(key_views(key_words@)),
            )),
            r is Err ==> *final(self) == *old(self) && r->Err_0 is InvalidRegex,
            r is Ok ==> final(self).pattern() == join_keywords(key_views(key_words@))
                && final(self).pattern_valid(),
    ;
}

} // verus!
