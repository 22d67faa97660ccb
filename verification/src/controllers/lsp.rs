//! The protocol backend's core: one shared aggregate of workspace index,
//! search engine and palette, and the decision behind each protocol
//! lifecycle event. The transport and the reader/writer lock around the
//! aggregate live outside the library; each handler decodes its request to
//! plain values, calls one method here under the lock, and encodes the
//! result.

use vstd::prelude::*;
use crate::config::{build_palette, entry_views, resolved_palette};
use crate::use_cases::highlight::Highlight;
use crate::use_cases::search::Search;
use crate::entities::color::{default_color, Color, ColorType, Colors};
use crate::entities::coordinates::Row;
use crate::entities::error::Error;
use crate::entities::file_matches::{row_entry_wf, FileState, MatchV, RowV};
use crate::entities::position::Position;
use crate::entities::state::State;
use crate::entities::strmap::StrMap;
use crate::ports::colorer::{cols_of, intervals_spec, palette_color, Colorer};
use crate::ports::regex_manager::{join_keywords, key_views, RegexManager};
use crate::ports::searcher::{RegexSearcher, Searcher};

verus! {

/// Why configure-and-initialize failed; both surface as protocol-level
/// invalid-params failures.
#[derive(Debug)]
pub enum InitError {
    /// The keyword pattern did not compile; carries the engine's reason.
    InvalidRegex(String),
    /// No workspace folder was supplied.
    NoWorkspaceFolder,
}

/// The color shown for a matched text: its palette entry, or the default
/// gray when the palette has none.
pub open spec fn color_or_default(palette: Map<Seq<char>, Colors>, kw: Seq<char>) -> Color {
    match palette_color(palette, kw, ColorType::Background) {
        Some(c) => c,
        None => default_color(),
    }
}

/// The start columns of a row's matches.
pub open spec fn match_cols(ms: Seq<MatchV>) -> Seq<usize> {
    ms.map_values(|m: MatchV| m.0)
}

/// The colored ranges one row yields: its color intervals, each paired with
/// the color of the match it belongs to.
pub open spec fn row_spans(row: RowV, palette: Map<Seq<char>, Colors>) -> Seq<
    (Position, Position, Color),
> {
    Seq::new(
        row.2.len(),
        |i: int|
            (
                Position { row: Row(row.0), column: intervals_spec(match_cols(row.2), row.1)[i].0 },
                Position { row: Row(row.0), column: intervals_spec(match_cols(row.2), row.1)[i].1 },
                color_or_default(palette, row.2[i].1),
            ),
    )
}

/// The colored ranges of a whole file index, row by row in order.
pub open spec fn spans_of_rows(rows: Seq<RowV>, palette: Map<Seq<char>, Colors>) -> Seq<
    (Position, Position, Color),
>
    decreases rows.len(),
{
    if rows.len() == 0 {
        Seq::empty()
    } else {
        spans_of_rows(rows.drop_last(), palette) + row_spans(rows.last(), palette)
    }
}

/// What a document-color request yields: the file's colored ranges, or
/// nothing when the file has no entry.
pub open spec fn document_color_spec(
    index: Map<Seq<char>, FileState>,
    palette: Map<Seq<char>, Colors>,
    path: Seq<char>,
) -> Seq<(Position, Position, Color)> {
    if index.contains_key(path) {
        spans_of_rows(index[path]@, palette)
    } else {
        Seq::empty()
    }
}

/// The shared mutable aggregate the protocol handlers operate on, guarded
/// by one reader/writer lock outside the library.
pub struct Protected<S, C> {
    state: State,
    grep: Search<S>,
    highlighter: Highlight<C>,
}

impl<S: RegexSearcher, C: Colorer> Protected<S, C> {
    /// The workspace index.
    pub closed spec fn index(&self) -> Map<Seq<char>, FileState> {
        self.state@
    }

    /// The keyword palette.
    pub closed spec fn palette(&self) -> Map<Seq<char>, Colors> {
        self.highlighter.colorer().palette()
    }

    /// The search provider.
    pub closed spec fn searcher(&self) -> S {
        self.grep.searcher()
    }

    pub closed spec fn wf(&self) -> bool {
        &&& self.state.wf()
        &&& self.highlighter.colorer().wf()
    }

    pub fn new(state: State, grep: Search<S>, highlighter: Highlight<C>) -> (r: Self)
        requires
            state.wf(),
            highlighter.colorer().wf(),
        ensures
            r.wf(),
            r.index() == state@,
            r.palette() == highlighter.colorer().palette(),
            r.searcher() == grep.searcher(),
    {
        Protected { state, grep, highlighter }
    }

    /// Installs a resolved palette wholesale; existing entries under other
    /// keywords stay.
    pub fn update_colors(&mut self, palette: StrMap<Colors>)
        requires
            old(self).wf(),
            palette.wf(),
        ensures
            final(self).wf(),
            final(self).palette() == old(self).palette().union_prefer_right(palette@),
            final(self).index() == old(self).index(),
            final(self).searcher() == old(self).searcher(),
    {
        let mut rest = palette;
        let ghost orig_rest = rest@;
        loop
            invariant
                self.wf(),
                rest.wf(),
                self.index() == old(self).index(),
                self.searcher() == old(self).searcher(),
                self.palette().union_prefer_right(rest@) == old(self).palette().union_prefer_right(
                    orig_rest,
                ),
            ensures
                self.wf(),
                self.index() == old(self).index(),
                self.searcher() == old(self).searcher(),
                self.palette().union_prefer_right(rest@) == old(self).palette().union_prefer_right(
                    orig_rest,
                ),
                rest@ =~= Map::<Seq<char>, Colors>::empty(),
            decreases rest.entries().len(),
        {
            let ghost pre_palette = self.palette();
            let ghost pre_rest = rest@;
            match rest.pop() {
                Some(p) => {
                    let ghost k = p.0@;
                    self.highlighter.update_palette(p.0, p.1);
                    proof {
                        assert(self.palette().union_prefer_right(rest@)
                            =~= pre_palette.union_prefer_right(pre_rest));
                    }
                },
                None => {
                    break ;
                },
            }
        }
        proof {
            assert(final(self).palette() =~= final(self).palette().union_prefer_right(
                Map::<Seq<char>, Colors>::empty(),
            ));
        }
    }

    /// Rebuilds the search pattern from a keyword list; on failure the
    /// pattern is left as it was.
    pub fn update_regex(&mut self, key_words: &Vec<String>) -> (r: Result<(), Error>)
        ensures
            r is Err <==> (key_words@.len() == 0 || !S::compiles(
                join_keywords(key_views(key_words@)),
            )),
            r is Err ==> final(self).searcher() == old(self).searcher() && r->Err_0
                is InvalidRegex,
            r is Ok ==> final(self).searcher().pattern() == join_keywords(key_views(key_words@))
                && final(self).searcher().pattern_valid(),
            final(self).index() == old(self).index(),
            final(self).palette() == old(self).palette(),
            final(self).wf() == old(self).wf(),
    {
        self.grep.update_regex(key_words)
    }

    /// Configure-and-initialize: install the palette resolved from the raw
    /// configuration, recompile the pattern from the palette's keywords,
    /// require at least one workspace folder, and scan the first folder
    /// into the index. Additional folders are accepted but ignored.
    ///
    /// The palette is installed even when recompilation then fails; the
    /// pattern stays stale in that case.
    pub fn init(&mut self, highlights: Option<Vec<(String, Option<String>)>>, folders: &Vec<
        String,
    >) -> (r: Result<(), InitError>)
        requires
            old(self).wf(),
        ensures
            final(self).wf(),
            final(self).palette() == old(self).palette().union_prefer_right(
                resolved_palette(
                    match highlights {
                        Some(entries) => Some(entry_views(entries@)),
                        None => None,
                    },
                ),
            ),
            match r {
                Ok(()) => folders@.len() > 0 && final(self).searcher().wf() && (exists|
                    m: Map<Seq<char>, FileState>,
                |
                    final(self).index() == old(self).index().union_prefer_right(m)),
                Err(e) => final(self).index() == old(self).index() && (e is NoWorkspaceFolder
                    ==> folders@.len() == 0 && final(self).searcher().pattern_valid()) && (e
                    is InvalidRegex ==> final(self).searcher() == old(self).searcher()),
            },
            exists|keys: Seq<Seq<char>>|
                {
                    &&& #[trigger] keys.len() > 0
                    &&& (forall|k: Seq<char>|
                        keys.contains(k) <==> resolved_palette(
                            match highlights {
                                Some(entries) => Some(entry_views(entries@)),
                                None => None,
                            },
                        ).contains_key(k))
                    &&& ((r matches Err(InitError::InvalidRegex(_))) <==> !S::compiles(
                        join_keywords(keys),
                    ))
                    &&& (r is Ok ==> final(self).searcher().pattern() == join_keywords(keys))
                },
    {
        let palette = build_palette(highlights);
        let keys = palette.keys();
        let ghost kviews = key_views(keys@);
        self.update_colors(palette);
        let regex_outcome = self.update_regex(&keys);
        proof {
            assert forall|k: Seq<char>|
                kviews.contains(k) <==> (exists|i: int|
                    0 <= i < keys@.len() && keys@[i]@ == k) by {
                if kviews.contains(k) {
                    let i = choose|i: int| 0 <= i < kviews.len() && kviews[i] == k;
                    assert(keys@[i]@ == k);
                }
                if exists|i: int| 0 <= i < keys@.len() && keys@[i]@ == k {
                    let i = choose|i: int| 0 <= i < keys@.len() && keys@[i]@ == k;
                    assert(kviews[i] == k);
                    assert(kviews.contains(k));
                }
            }
        }
        match regex_outcome {
            Ok(()) => {
                proof {
                    self.grep.searcher().valid_implies_wf();
                }
                if folders.len() == 0 {
                    return Err(InitError::NoWorkspaceFolder);
                }
                let scanned = self.grep.recurssive_search(folders[0].as_str());
                let ghost scanned_map = scanned@;
                self.state.extend(scanned);
                proof {
                    assert(final(self).index() == old(self).index().union_prefer_right(
                        scanned_map,
                    ));
                }
                Ok(())
            },
            Err(e) => {
                match e {
                    Error::InvalidRegex(reason) => Err(InitError::InvalidRegex(reason)),
                }
            },
        }
    }

    /// Applies an edited document's full new text: re-scan it, keep the
    /// file's entry when matches remain, drop it when none do.
    pub fn did_change(&mut self, path: &str, text: &str)
        requires
            old(self).wf(),
            old(self).searcher().wf(),
        ensures
            final(self).wf(),
            final(self).searcher() == old(self).searcher(),
            final(self).palette() == old(self).palette(),
            old(self).searcher().text_index(text@).len() == 0 ==> final(self).index()
                == old(self).index().remove(path@),
            old(self).searcher().text_index(text@).len() > 0 ==> exists|f: FileState|
                f.wf() && f@ == old(self).searcher().text_index(text@) && final(self).index()
                    == old(self).index().insert(path@, f),
    {
        match self.grep.search_in_text(text) {
            Some(new_matches) => {
                let ghost f = new_matches;
                self.state.replace(path.to_owned(), new_matches);
                proof {
                    assert(f.wf() && f@ == old(self).searcher().text_index(text@)
                        && final(self).index() == old(self).index().insert(path@, f));
                }
            },
            None => {
                self.state.remove(path);
            },
        }
    }

    /// Answers a document-color request: the file's rows turned into
    /// intervals, each paired with the palette color of its match.
    pub fn document_color(&self, path: &str) -> (r: Vec<(Position, Position, Color)>)
        requires
            self.wf(),
        ensures
            r@ == document_color_spec(self.index(), self.palette(), path@),
    {
        let mut out: Vec<(Position, Position, Color)> = Vec::new();
        let file_state = match self.state.get(path) {
            Some(f) => f,
            None => {
                return out;
            },
        };
        let ghost rv = file_state@;
        let ghost pal = self.palette();
        let rows = file_state.rows();
        let nr = rows.len();
        let mut k: usize = 0;
        while k < nr
            invariant
                self.wf(),
                pal == self.palette(),
                file_state.wf(),
                rv == file_state@,
                rows@ == file_state.rows_seq(),
                nr == rows@.len(),
                rv.len() == nr,
                0 <= k <= nr,
                out@ == spans_of_rows(rv.take(k as int), pal),
            decreases nr - k,
        {
            let e = &rows[k];
            proof {
                assert(rows@[k as int]@ == rv[k as int]);
                assert(row_entry_wf(*e));
            }
            let intervals = self.highlighter.color_intervals(e.matches.as_slice(), &e.meta);
            let ni = intervals.len();
            let ghost rspans = row_spans(rv[k as int], pal);
            proof {
                assert(cols_of(e.matches@) =~= match_cols(rv[k as int].2));
                assert(e.meta == rv[k as int].1);
                assert(intervals@ == intervals_spec(match_cols(rv[k as int].2), rv[k as int].1));
                assert(ni == rv[k as int].2.len());
                assert(rspans.len() == ni);
            }
            let mut i: usize = 0;
            while i < ni
                invariant
                    self.wf(),
                    pal == self.palette(),
                    0 <= i <= ni,
                    ni == intervals@.len(),
                    ni <= e.matches@.len(),
                    intervals@ == intervals_spec(match_cols(rv[k as int].2), rv[k as int].1),
                    rspans == row_spans(rv[k as int], pal),
                    rspans.len() == ni,
                    0 <= k < rv.len(),
                    e.matches@.map_values(|m: crate::entities::file_matches::Match| m@) == rv[
                        k as int
                    ].2,
                    e.row.0 == rv[k as int].0,
                    out@ == spans_of_rows(rv.take(k as int), pal) + rspans.take(i as int),
                decreases ni - i,
            {
                let kw = e.matches[i].keyword.as_str();
                proof {
                    assert(e.matches@[i as int]@ == rv[k as int].2[i as int]);
                    assert(kw@ == rv[k as int].2[i as int].1);
                }
                let color = match self.highlighter.highlight(kw, ColorType::Background) {
                    Some(c) => c,
                    None => Color::default(),
                };
                let start = Position::new(e.row, intervals[i].0);
                let end = Position::new(e.row, intervals[i].1);
                out.push((start, end, color));
                proof {
                    assert(Row(e.row.0) == e.row);
                    assert(out@.last() == rspans[i as int]);
                    assert(out@ =~= spans_of_rows(rv.take(k as int), pal) + rspans.take(i + 1));
                }
                i += 1;
            }
            proof {
                assert(rspans.take(ni as int) =~= rspans);
                assert(rv.take(k + 1).drop_last() =~= rv.take(k as int));
                assert(rv.take(k + 1).last() == rv[k as int]);
                assert(spans_of_rows(rv.take(k + 1), pal) =~= spans_of_rows(rv.take(k as int), pal)
                    + rspans);
            }
            k += 1;
        }
        proof {
            assert(rv.take(nr as int) =~= rv);
        }
        out
    }

    /// Shutdown: there is no persisted state to flush, so it always
    /// succeeds.
    pub fn shutdown(&self) -> (r: Result<(), InitError>)
        ensures
            r is Ok,
    {
        Ok(())
    }
}

} // verus!
