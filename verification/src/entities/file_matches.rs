//! One keyword occurrence, and the ordered-by-row index of all occurrences in
//! one file.

use vstd::prelude::*;
use crate::entities::coordinates::{Column, Row};
use crate::entities::metadata::RowMetadata;

verus! {

/// What a match denotes: its start column and the matched text.
pub type MatchV = (usize, Seq<char>);

/// What a row entry denotes: the row, its metadata, and its matches.
pub type RowV = (usize, RowMetadata, Seq<MatchV>);

/// A match of one of the user-configured keywords inside a row. The keyword
/// field holds the literal matched text, not the canonical configured key.
#[derive(Debug)]
pub struct Match {
    pub column: Column,
    pub keyword: String,
}

impl View for Match {
    type V = MatchV;

    open spec fn view(&self) -> MatchV {
        (self.column.0, self.keyword@)
    }
}

impl Match {
    pub fn new(column: Column, matched_patch: String) -> (r: Self)
        ensures
            r.column == column,
            r.keyword == matched_patch,
    {
        Match { column, keyword: matched_patch }
    }

    /// The column inside the row where the match starts.
    pub fn column(&self) -> (r: &Column)
        ensures
            *r == self.column,
    {
        &self.column
    }

    /// The literal text that triggered the match.
    pub fn keyword(&self) -> (r: &String)
        ensures
            *r == self.keyword,
    {
        &self.keyword
    }
}

/// One row of a file index: the row, its metadata, and its matches in
/// discovery order.
#[derive(Debug)]
pub struct RowEntry {
    pub row: Row,
    pub meta: RowMetadata,
    pub matches: Vec<Match>,
}

impl View for RowEntry {
    type V = RowV;

    open spec fn view(&self) -> RowV {
        (self.row.0, self.meta, self.matches@.map_values(|m: Match| m@))
    }
}

/// A row's matches sit at strictly ascending columns.
pub open spec fn matches_ascending(ms: Seq<Match>) -> bool {
    forall|i: int, j: int| 0 <= i < j < ms.len() ==> ms[i].column.0 < ms[j].column.0
}

/// A row entry always carries at least one match, in strictly ascending
/// column order, a positive row length, and metadata whose first
/// non-whitespace column fits in the row.
pub open spec fn row_entry_wf(e: RowEntry) -> bool {
    &&& e.matches@.len() > 0
    &&& matches_ascending(e.matches@)
    &&& e.meta.line_len >= 1
    &&& e.meta.wf()
}

/// Rows strictly ascend, so each row occurs at most once.
pub open spec fn rows_sorted(s: Seq<RowEntry>) -> bool {
    forall|i: int, j: int| 0 <= i < j < s.len() ==> s[i].row.0 < s[j].row.0
}

/// Where a new entry lands in an ordered row sequence: it replaces the entry
/// with its row, or sits before the first larger row.
pub open spec fn insert_row(s: Seq<RowEntry>, e: RowEntry) -> Seq<RowEntry>
    decreases s.len(),
{
    if s.len() == 0 {
        seq![e]
    } else if s[0].row.0 < e.row.0 {
        seq![s[0]] + insert_row(s.drop_first(), e)
    } else if s[0].row.0 == e.row.0 {
        seq![e] + s.drop_first()
    } else {
        seq![e] + s
    }
}

/// All the matches inside one file, ordered by row. An instance with zero
/// rows cannot exist: absence of matches is absence of the whole index.
#[derive(Debug)]
pub struct FileState {
    rows: Vec<RowEntry>,
}

impl View for FileState {
    type V = Seq<RowV>;

    open spec fn view(&self) -> Seq<RowV> {
        self.rows_seq().map_values(|e: RowEntry| e@)
    }
}

impl FileState {
    /// The rows of the index, in ascending row order.
    pub closed spec fn rows_seq(&self) -> Seq<RowEntry> {
        self.rows@
    }

    pub open spec fn wf(&self) -> bool {
        &&& self.rows_seq().len() > 0
        &&& rows_sorted(self.rows_seq())
        &&& forall|i: int| 0 <= i < self.rows_seq().len() ==> row_entry_wf(
            #[trigger] self.rows_seq()[i],
        )
    }

    /// Builds the index, or nothing when there is no data: an empty file
    /// index is represented by absence, never by an empty instance.
    pub fn try_new(data: Vec<RowEntry>) -> (r: Option<FileState>)
        requires
            rows_sorted(data@),
            forall|i: int| 0 <= i < data@.len() ==> row_entry_wf(#[trigger] data@[i]),
        ensures
            match r {
                Some(f) => data@.len() > 0 && f.rows_seq() == data@ && f.wf(),
                None => data@.len() == 0,
            },
    {
        if data.len() == 0 {
            None
        } else {
            Some(FileState { rows: data })
        }
    }

    /// Overwrites (or adds) one row's metadata and matches, keeping the rows
    /// ordered.
    pub fn replace(&mut self, row: Row, metadata: RowMetadata, new_matches: Vec<Match>)
        requires
            old(self).wf(),
            new_matches@.len() > 0,
            matches_ascending(new_matches@),
            metadata.line_len >= 1,
            metadata.wf(),
        ensures
            final(self).wf(),
            final(self).rows_seq() == insert_row(
                old(self).rows_seq(),
                RowEntry { row, meta: metadata, matches: new_matches },
            ),
    {
        let ghost s = self.rows@;
        let e = RowEntry { row, meta: metadata, matches: new_matches };
        let ghost ge = e;
        let n = self.rows.len();
        let mut i: usize = 0;
        while i < n && self.rows[i].row.0 < row.0
            invariant
                n == s.len(),
                self.rows@ == s,
                0 <= i <= n,
                forall|k: int| 0 <= k < i ==> s[k].row.0 < row.0,
            decreases n - i,
        {
            i += 1;
        }
        proof {
            lemma_insert_row_split(s, ge, i as int);
        }
        if i < n && self.rows[i].row.0 == row.0 {
            proof {
                assert(insert_row(s.skip(i as int), ge) =~= seq![ge] + s.skip(i as int).drop_first());
                assert(s.skip(i as int).drop_first() =~= s.skip(i as int + 1));
            }
            self.rows[i] = e;
            proof {
                assert(self.rows@ =~= s.take(i as int) + (seq![ge] + s.skip(i as int + 1)));
            }
        } else if i < n {
            proof {
                assert(s.skip(i as int)[0].row.0 > ge.row.0);
                assert(insert_row(s.skip(i as int), ge) =~= seq![ge] + s.skip(i as int));
            }
            self.rows.insert(i, e);
            proof {
                assert(self.rows@ =~= s.take(i as int) + (seq![ge] + s.skip(i as int)));
            }
        } else {
            proof {
                assert(s.skip(i as int).len() == 0);
                assert(insert_row(s.skip(i as int), ge) =~= seq![ge]);
            }
            self.rows.push(e);
            proof {
                assert(self.rows@ =~= s.take(i as int) + seq![ge]);
            }
        }
    }

    /// How many rows of the file hold at least one match.
    pub fn len(&self) -> (r: usize)
        ensures
            r == self.rows_seq().len(),
    {
        self.rows.len()
    }

    /// Read access to the rows, in ascending row order.
    pub fn rows(&self) -> (r: &Vec<RowEntry>)
        ensures
            r@ == self.rows_seq(),
    {
        &self.rows
    }
}

/// Walking past a prefix of strictly smaller rows leaves the insertion to the
/// remainder of the sequence.
proof fn lemma_insert_row_split(s: Seq<RowEntry>, e: RowEntry, i: int)
    requires
        0 <= i <= s.len(),
        forall|k: int| 0 <= k < i ==> s[k].row.0 < e.row.0,
    ensures
        insert_row(s, e) =~= s.take(i) + insert_row(s.skip(i), e),
    decreases i,
{
    if i > 0 {
        lemma_insert_row_split(s.drop_first(), e, i - 1);
        assert(s[0].row.0 < e.row.0);
        assert(insert_row(s, e) == seq![s[0]] + insert_row(s.drop_first(), e));
        assert(s.drop_first().take(i - 1) =~= s.take(i).drop_first());
        assert(s.drop_first().skip(i - 1) =~= s.skip(i));
        assert(seq![s[0]] + (s.take(i).drop_first() + insert_row(s.skip(i), e)) =~= s.take(i)
            + insert_row(s.skip(i), e));
    } else {
        assert(s.take(0) =~= Seq::<RowEntry>::empty());
        assert(s.skip(0) =~= s);
    }
}

} // verus!
