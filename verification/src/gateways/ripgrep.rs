//! The grep-backed search provider: owns the keyword pattern, scans files,
//! texts and whole workspaces, and recompiles the pattern on configuration
//! changes.
//!
//! The pattern-matching engine itself is outside the library; every call
//! into it goes through a trusted wrapper whose contract states what the
//! engine's source shows. Everything around those calls is verified.

use vstd::prelude::*;
use grep::matcher::Matcher;
use crate::entities::coordinates::{Column, Row};
use crate::entities::error::{Error, TodoResult};
use crate::entities::file_matches::{
    matches_ascending, row_entry_wf, rows_sorted, FileState, Match, RowEntry, RowV,
};
use crate::entities::metadata::RowMetadata;
use crate::entities::state::State;
use crate::ports::regex_manager::{join_with_pipe, RegexManager};
use crate::ports::searcher::{should_skip_name, skip_name, RegexSearcher, Searcher};
use vstd::string::{StrSliceExecFns, StringExecFns};
use vstd::utf8::{encode_scalar, encode_utf8};

verus! {

/// Whether a character is Unicode whitespace, as `char::is_whitespace` has
/// it.
pub uninterp spec fn is_whitespace_char(c: char) -> bool;

/// Relies on core's `char::is_whitespace`: the answer depends on the
/// character alone.
pub assume_specification[ char::is_whitespace ](c: char) -> (r: bool)
    ensures
        r == is_whitespace_char(c),
;

/// Whether a pattern text compiles under the default matcher configuration.
pub uninterp spec fn pattern_compiles(p: Seq<char>) -> bool;

/// Relies on grep_regex's `RegexMatcher::new` (default configuration):
/// whether a pattern compiles depends on the pattern text alone; on failure
/// the error's rendering is returned.
#[verifier::external_body]
fn try_compile(pattern: &str) -> (r: Result<(), String>)
    ensures
        r is Ok <==> pattern_compiles(pattern@),
{
    match grep::regex::RegexMatcher::new(pattern) {
        Ok(_) => Ok(()),
        Err(e) => Err(e.to_string()),
    }
}

/// The matching lines the default searcher reports for a pattern in a text:
/// 1-based line number and line content, in order.
pub uninterp spec fn match_lines(p: Seq<char>, text: Seq<char>) -> Seq<(u64, Seq<char>)>;

/// Relies on grep_searcher's `Searcher::search_slice` with the `UTF8` sink
/// over a `RegexMatcher`: the sink runs once per matching line, with 1-based
/// line numbers in ascending order, and what the default searcher reports
/// depends on the pattern and the text alone.
#[verifier::external_body]
fn grep_text_lines(pattern: &str, text: &str) -> (r: Vec<(u64, String)>)
    requires
        pattern_compiles(pattern@),
    ensures
        r@.len() == match_lines(pattern@, text@).len(),
        forall|i: int|
            0 <= i < r@.len() ==> (#[trigger] r@[i]).0 == match_lines(pattern@, text@)[i].0
                && r@[i].1@ == match_lines(pattern@, text@)[i].1,
        forall|i: int| 0 <= i < r@.len() ==> (#[trigger] r@[i]).0 >= 1,
        forall|i: int, j: int| 0 <= i < j < r@.len() ==> r@[i].0 < r@[j].0,
{
    let mut out: Vec<(u64, String)> = Vec::new();
    if let Ok(matcher) = grep::regex::RegexMatcher::new(pattern) {
        let mut searcher = grep::searcher::Searcher::new();
        let _ = searcher.search_slice(
            &matcher,
            text.as_bytes(),
            grep::searcher::sinks::UTF8(|num, line| {
                out.push((num, line.to_owned()));
                Ok(true)
            }),
        );
    }
    out
}

/// Relies on grep_searcher's `Searcher::search_path` with the `UTF8` sink:
/// the same per-line reporting as the slice search, but reading the file at
/// the path, so the result depends on the disk; only the ordering of the
/// 1-based line numbers is stated.
#[verifier::external_body]
fn grep_file_lines(pattern: &str, path: &str) -> (r: Vec<(u64, String)>)
    requires
        pattern_compiles(pattern@),
    ensures
        forall|i: int| 0 <= i < r@.len() ==> (#[trigger] r@[i]).0 >= 1,
        forall|i: int, j: int| 0 <= i < j < r@.len() ==> r@[i].0 < r@[j].0,
{
    let mut out: Vec<(u64, String)> = Vec::new();
    if let Ok(matcher) = grep::regex::RegexMatcher::new(pattern) {
        let mut searcher = grep::searcher::Searcher::new();
        let _ = searcher.search_path(
            &matcher,
            path,
            grep::searcher::sinks::UTF8(|num, line| {
                out.push((num, line.to_owned()));
                Ok(true)
            }),
        );
    }
    out
}

/// The matches a pattern has inside one line: start byte offset and matched
/// text, in order of ascending offsets.
pub uninterp spec fn line_matches(p: Seq<char>, line: Seq<char>) -> Seq<(usize, Seq<char>)>;

/// Relies on grep_matcher's `Matcher::try_find_iter` over a `RegexMatcher`:
/// it yields successive non-overlapping matches with strictly ascending
/// start offsets (each search resumes past the previous match, one position
/// past it when the match was empty), each within the line's bounds; the
/// matched text is the line's bytes between the match's bounds. The matches
/// depend on the pattern and the line alone.
#[verifier::external_body]
fn grep_line_matches(pattern: &str, line: &str) -> (r: Vec<(usize, String)>)
    requires
        pattern_compiles(pattern@),
    ensures
        r@.len() == line_matches(pattern@, line@).len(),
        forall|i: int|
            0 <= i < r@.len() ==> (#[trigger] r@[i]).0 == line_matches(pattern@, line@)[i].0
                && r@[i].1@ == line_matches(pattern@, line@)[i].1,
        forall|i: int, j: int| 0 <= i < j < r@.len() ==> r@[i].0 < r@[j].0,
{
    let mut out: Vec<(usize, String)> = Vec::new();
    if let Ok(matcher) = grep::regex::RegexMatcher::new(pattern) {
        let _ = matcher.try_find_iter(line.as_bytes(), |m| {
            let text = String::from_utf8_lossy(&line.as_bytes()[m.start()..m.end()]).into_owned();
            out.push((m.start(), text));
            Ok::<bool, ()>(true)
        });
    }
    out
}

/// One immediate child of a directory, as the walker reports it.
#[derive(Debug)]
pub struct DirEntryInfo {
    pub path: String,
    pub name: String,
    pub is_dir: bool,
    pub is_file: bool,
}

/// Relies on walkdir's `WalkDir` with both depth bounds set to 1: it yields
/// the immediate children of the directory; entries that cannot be read are
/// dropped, as the walk is best-effort. Each entry is classified with the
/// path queries `is_dir`/`is_file`, which follow symlinks, so a symlinked
/// directory or file is walked like any other. The result depends on the
/// disk, so nothing is stated of it.
#[verifier::external_body]
fn list_dir(path: &str) -> (r: Vec<DirEntryInfo>) {
    let mut out: Vec<DirEntryInfo> = Vec::new();
    for entry in walkdir::WalkDir::new(path).min_depth(1).max_depth(1) {
        if let Ok(e) = entry {
            out.push(DirEntryInfo {
                path: e.path().to_string_lossy().into_owned(),
                name: e.file_name().to_string_lossy().into_owned(),
                is_dir: e.path().is_dir(),
                is_file: e.path().is_file(),
            });
        }
    }
    out
}

/// The index of the first non-whitespace character, or the character count
/// when the text is all whitespace.
pub open spec fn first_non_ws_index(s: Seq<char>) -> int
    decreases s.len(),
{
    if s.len() == 0 {
        0
    } else if !is_whitespace_char(s[0]) {
        0
    } else {
        1 + first_non_ws_index(s.drop_first())
    }
}

proof fn lemma_first_non_ws_at(s: Seq<char>, i: int)
    requires
        0 <= i <= s.len(),
        forall|k: int| 0 <= k < i ==> is_whitespace_char(#[trigger] s[k]),
        i < s.len() ==> !is_whitespace_char(s[i]),
    ensures
        first_non_ws_index(s) == i,
    decreases i,
{
    if i > 0 {
        lemma_first_non_ws_at(s.drop_first(), i - 1);
        assert forall|k: int| 0 <= k < i - 1 implies is_whitespace_char(
            #[trigger] s.drop_first()[k],
        ) by {
            assert(s.drop_first()[k] == s[k + 1]);
        }
    }
}

/// The first non-whitespace column of a row: the index of the first
/// character that is not whitespace, or the row's full length in bytes when
/// the row is all whitespace.
pub open spec fn first_non_ws_spec(s: Seq<char>) -> int {
    if first_non_ws_index(s) < s.len() {
        first_non_ws_index(s)
    } else {
        line_byte_len(s)
    }
}

/// A character sequence never encodes to fewer bytes than it has characters.
proof fn lemma_utf8_len_ge(chars: Seq<char>)
    ensures
        encode_utf8(chars).len() >= chars.len(),
    decreases chars.len(),
{
    if chars.len() > 0 {
        lemma_utf8_len_ge(chars.drop_first());
        assert(encode_scalar(chars[0] as u32).len() >= 1);
    }
}

/// A line's length in bytes.
pub open spec fn line_byte_len(line: Seq<char>) -> int {
    encode_utf8(line).len() as int
}

/// The views of reported lines.
pub open spec fn line_views(s: Seq<(u64, String)>) -> Seq<(u64, Seq<char>)> {
    s.map_values(|p: (u64, String)| (p.0, p.1@))
}

/// Whether a reported line yields a row entry: it holds a match, has at
/// least one byte, and its 0-based row index is representable.
pub open spec fn keep_line(p: Seq<char>, num: u64, line: Seq<char>) -> bool {
    &&& line_matches(p, line).len() > 0
    &&& line_byte_len(line) >= 1
    &&& num >= 1
    &&& num - 1 <= usize::MAX
}

/// The row entry one kept line yields. Rows are 0-based: the physical line
/// number minus one.
pub open spec fn row_of_line(p: Seq<char>, num: u64, line: Seq<char>) -> RowV {
    (
        (num - 1) as usize,
        RowMetadata {
            line_len: line_byte_len(line) as usize,
            first_non_zero_pos: Column(first_non_ws_spec(line) as usize),
        },
        line_matches(p, line),
    )
}

/// The rows a sequence of reported lines yields, in order.
pub open spec fn built_rows(p: Seq<char>, lines: Seq<(u64, Seq<char>)>) -> Seq<RowV>
    decreases lines.len(),
{
    if lines.len() == 0 {
        Seq::empty()
    } else {
        built_rows(p, lines.drop_last()) + (if keep_line(p, lines.last().0, lines.last().1) {
            seq![row_of_line(p, lines.last().0, lines.last().1)]
        } else {
            Seq::empty()
        })
    }
}

/// The directory paths the walk descends into: exactly the child
/// directories whose name is outside the deny-set. Sibling directories
/// under any other name are all visited.
pub open spec fn visit_dirs(s: Seq<DirEntryInfo>) -> Seq<Seq<char>>
    decreases s.len(),
{
    if s.len() == 0 {
        Seq::empty()
    } else {
        visit_dirs(s.drop_last()) + (if s.last().is_dir && !skip_name(s.last().name@) {
            seq![s.last().path@]
        } else {
            Seq::empty()
        })
    }
}

/// The file paths the walk scans: exactly the child entries that are files
/// and not directories.
pub open spec fn scan_files(s: Seq<DirEntryInfo>) -> Seq<Seq<char>>
    decreases s.len(),
{
    if s.len() == 0 {
        Seq::empty()
    } else {
        scan_files(s.drop_last()) + (if !s.last().is_dir && s.last().is_file {
            seq![s.last().path@]
        } else {
            Seq::empty()
        })
    }
}

/// Splits a directory listing into the directories to descend into and the
/// files to scan, applying the skip policy to the directories.
pub fn partition_entries(entries: &Vec<DirEntryInfo>) -> (r: (Vec<String>, Vec<String>))
    ensures
        r.0@.map_values(|s: String| s@) == visit_dirs(entries@),
        r.1@.map_values(|s: String| s@) == scan_files(entries@),
{
    let n = entries.len();
    let mut dirs: Vec<String> = Vec::new();
    let mut files: Vec<String> = Vec::new();
    let mut i: usize = 0;
    while i < n
        invariant
            n == entries@.len(),
            0 <= i <= n,
            dirs@.map_values(|s: String| s@) == visit_dirs(entries@.take(i as int)),
            files@.map_values(|s: String| s@) == scan_files(entries@.take(i as int)),
        decreases n - i,
    {
        let e = &entries[i];
        if e.is_dir {
            if !should_skip_name(e.name.as_str()) {
                dirs.push(e.path.clone());
            }
        } else if e.is_file {
            files.push(e.path.clone());
        }
        proof {
            assert(entries@.take(i + 1).drop_last() =~= entries@.take(i as int));
            assert(dirs@.map_values(|s: String| s@) =~= visit_dirs(entries@.take(i + 1)));
            assert(files@.map_values(|s: String| s@) =~= scan_files(entries@.take(i + 1)));
        }
        i += 1;
    }
    proof {
        assert(entries@.take(n as int) =~= entries@);
    }
    (dirs, files)
}

/// No real filesystem nests paths this deep; the walk stops rather than
/// recurse past it.
pub const DEPTH_LIMIT: u64 = 4096;

/// The grep-backed search provider. It holds the pattern text; the engine's
/// matcher is rebuilt from it at each call, which the same text determines.
#[derive(Debug)]
pub struct RipGrepSearcher {
    pattern: String,
}

impl RipGrepSearcher {
    /// The alternation pattern the provider currently holds.
    pub closed spec fn spec_pattern(&self) -> Seq<char> {
        self.pattern@
    }

    /// Builds a provider from a pattern, failing exactly when the pattern
    /// does not compile.
    pub fn try_from_regex(pattern: &str) -> (r: TodoResult<Self>)
        ensures
            r is Ok <==> pattern_compiles(pattern@),
            r matches Ok(s) ==> s.spec_pattern() == pattern@,
            r is Err ==> r->Err_0 is InvalidRegex,
    {
        match try_compile(pattern) {
            Ok(()) => Ok(RipGrepSearcher { pattern: pattern.to_owned() }),
            Err(e) => Err(Error::InvalidRegex(e)),
        }
    }

    /// The index of the first character of the text that is not whitespace,
    /// or the text's full byte length when all of it is.
    fn first_non_white_space_position(&self, text: &str) -> (r: Column)
        ensures
            r.0 == first_non_ws_spec(text@),
            r.0 <= line_byte_len(text@),
    {
        let n = text.unicode_len();
        let mut i: usize = 0;
        while i < n
            invariant
                n == text@.len(),
                0 <= i <= n,
                forall|k: int| 0 <= k < i ==> is_whitespace_char(#[trigger] text@[k]),
            decreases n - i,
        {
            if !text.get_char(i).is_whitespace() {
                proof {
                    lemma_first_non_ws_at(text@, i as int);
                    lemma_utf8_len_ge(text@);
                }
                return Column(i);
            }
            i += 1;
        }
        proof {
            lemma_first_non_ws_at(text@, n as int);
        }
        Column(text.as_bytes().len())
    }

    /// Turns the reported lines into a file index: one row entry per kept
    /// line, rows ascending. Nothing when no line yields an entry.
    fn build_index(&self, lines: Vec<(u64, String)>) -> (r: Option<FileState>)
        requires
            pattern_compiles(self.spec_pattern()),
            forall|i: int, j: int| 0 <= i < j < lines@.len() ==> lines@[i].0 < lines@[j].0,
        ensures
            match r {
                Some(f) => f.wf() && f@ == built_rows(self.spec_pattern(), line_views(lines@))
                    && built_rows(self.spec_pattern(), line_views(lines@)).len() > 0,
                None => built_rows(self.spec_pattern(), line_views(lines@)).len() == 0,
            },
    {
        let ghost p = self.spec_pattern();
        let ghost lviews = line_views(lines@);
        let n = lines.len();
        let mut data: Vec<RowEntry> = Vec::new();
        let mut i: usize = 0;
        while i < n
            invariant
                pattern_compiles(self.spec_pattern()),
                p == self.spec_pattern(),
                lviews == line_views(lines@),
                lviews.len() == n,
                n == lines@.len(),
                forall|a: int, b: int| 0 <= a < b < lines@.len() ==> lines@[a].0 < lines@[b].0,
                0 <= i <= n,
                data@.map_values(|e: RowEntry| e@) == built_rows(p, lviews.take(i as int)),
                rows_sorted(data@),
                forall|k: int| 0 <= k < data@.len() ==> row_entry_wf(#[trigger] data@[k]),
                data@.len() > 0 ==> i > 0 && data@.last().row.0 + 1 <= lines@[i - 1].0,
            decreases n - i,
        {
            let num = lines[i].0;
            let line = &lines[i].1;
            let found = grep_line_matches(self.pattern.as_str(), line.as_str());
            let blen = line.as_str().as_bytes().len();
            proof {
                assert(blen == line_byte_len(line@));
            }
            if found.len() > 0 && blen >= 1 && num >= 1 && num - 1 <= usize::MAX as u64 {
                proof {
                    assert(keep_line(p, lviews[i as int].0, lviews[i as int].1));
                }
                let row_idx = (num - 1) as usize;
                let first = self.first_non_white_space_position(line.as_str());
                let meta = RowMetadata::new(blen, first);
                let m = found.len();
                let mut ms: Vec<Match> = Vec::new();
                let mut j: usize = 0;
                while j < m
                    invariant
                        pattern_compiles(p),
                        m == found@.len(),
                        found@.len() == line_matches(p, line@).len(),
                        forall|a: int|
                            0 <= a < found@.len() ==> (#[trigger] found@[a]).0 == line_matches(
                                p,
                                line@,
                            )[a].0 && found@[a].1@ == line_matches(p, line@)[a].1,
                        forall|a: int, b: int|
                            0 <= a < b < found@.len() ==> found@[a].0 < found@[b].0,
                        0 <= j <= m,
                        ms@.len() == j,
                        forall|a: int|
                            0 <= a < j ==> (#[trigger] ms@[a])@ == line_matches(p, line@)[a],
                        forall|a: int| 0 <= a < j ==> (#[trigger] ms@[a]).column.0 == found@[a].0,
                    decreases m - j,
                {
                    let col = found[j].0;
                    let kw = found[j].1.clone();
                    ms.push(Match::new(Column(col), kw));
                    j += 1;
                }
                proof {
                    assert(ms@.map_values(|mm: Match| mm@) =~= line_matches(p, line@));
                    assert(matches_ascending(ms@));
                }
                let entry = RowEntry { row: Row(row_idx), meta, matches: ms };
                proof {
                    assert(entry@ == row_of_line(p, lviews[i as int].0, lviews[i as int].1));
                }
                data.push(entry);
                proof {
                    assert(lviews.take(i + 1).drop_last() =~= lviews.take(i as int));
                    assert(data@.map_values(|e: RowEntry| e@) =~= built_rows(p, lviews.take(i + 1)));
                }
            } else {
                proof {
                    assert(!keep_line(p, lviews[i as int].0, lviews[i as int].1));
                    assert(lviews.take(i + 1).drop_last() =~= lviews.take(i as int));
                    assert(data@.map_values(|e: RowEntry| e@) =~= built_rows(p, lviews.take(i + 1)));
                }
            }
            i += 1;
        }
        proof {
            assert(lviews.take(n as int) =~= lviews);
        }
        FileState::try_new(data)
    }

    /// The recursive walk, bounded by a depth budget: list the directory,
    /// recurse into the directories the skip policy admits, scan the files,
    /// and merge everything found.
    fn search_to_depth(&self, root: &str, depth: u64) -> (r: State)
        requires
            pattern_compiles(self.spec_pattern()),
        ensures
            r.wf(),
        decreases depth,
    {
        let mut state = State::default();
        if depth == 0 {
            return state;
        }
        let entries = list_dir(root);
        let partition = partition_entries(&entries);
        let dirs = partition.0;
        let files = partition.1;
        let nd = dirs.len();
        let mut i: usize = 0;
        while i < nd
            invariant
                pattern_compiles(self.spec_pattern()),
                state.wf(),
                depth >= 1,
                0 <= i <= nd,
                nd == dirs@.len(),
            decreases nd - i,
        {
            let sub = self.search_to_depth(dirs[i].as_str(), depth - 1);
            state.extend(sub);
            i += 1;
        }
        let nf = files.len();
        let mut k: usize = 0;
        while k < nf
            invariant
                pattern_compiles(self.spec_pattern()),
                state.wf(),
                0 <= k <= nf,
                nf == files@.len(),
            decreases nf - k,
        {
            match self.search_in_path(files[k].as_str()) {
                Some(file_matches) => {
                    let single = State::from_file_matches(files[k].clone(), file_matches);
                    state.extend(single);
                },
                None => {},
            }
            k += 1;
        }
        state
    }
}

impl Searcher for RipGrepSearcher {
    closed spec fn wf(&self) -> bool {
        pattern_compiles(self.pattern@)
    }

    closed spec fn text_index(&self, text: Seq<char>) -> Seq<RowV> {
        built_rows(self.pattern@, match_lines(self.pattern@, text))
    }

    fn search_in_path(&self, file: &str) -> (r: Option<FileState>) {
        let lines = grep_file_lines(self.pattern.as_str(), file);
        self.build_index(lines)
    }

    fn search_in_text(&self, text: &str) -> (r: Option<FileState>) {
        let lines = grep_text_lines(self.pattern.as_str(), text);
        proof {
            let nm = match_lines(self.pattern@, text@);
            assert forall|i: int| 0 <= i < lines@.len() implies line_views(lines@)[i] == nm[i] by {
                assert(lines@[i].0 == nm[i].0 && lines@[i].1@ == nm[i].1);
            }
            assert(line_views(lines@) =~= nm);
        }
        self.build_index(lines)
    }

    fn recurssive_search(&self, root: &str) -> (r: State) {
        self.search_to_depth(root, DEPTH_LIMIT)
    }

    fn should_skip(&self, name: &str) -> (r: bool) {
        should_skip_name(name)
    }
}

impl RegexManager for RipGrepSearcher {
    closed spec fn pattern(&self) -> Seq<char> {
        self.pattern@
    }

    closed spec fn pattern_valid(&self) -> bool {
        pattern_compiles(self.pattern@)
    }

    closed spec fn compiles(p: Seq<char>) -> bool {
        pattern_compiles(p)
    }

    fn update_regex(&mut self, key_words: &Vec<String>) -> (r: TodoResult<()>) {
        if key_words.len() == 0 {
            return Err(Error::InvalidRegex(String::from_str("empty list of keywords")));
        }
        let regex = join_with_pipe(key_words);
        match try_compile(regex.as_str()) {
            Ok(()) => {
                self.pattern = regex;
                Ok(())
            },
            Err(e) => Err(Error::InvalidRegex(e)),
        }
    }
}

impl RegexSearcher for RipGrepSearcher {
    proof fn valid_implies_wf(&self) {
    }
}

impl Default for RipGrepSearcher {
    /// The provider the server starts from, holding the default pattern.
    fn default() -> (r: Self)
        ensures
            r.spec_pattern() == "TODO"@,
    {
        RipGrepSearcher { pattern: String::from_str("TODO") }
    }
}

} // verus!

