//! The color-palette capability: lookup by matched text, palette update, and
//! the row-local interval calculation shared by every implementation.

use vstd::prelude::*;
use crate::entities::color::{Color, ColorType, Colors};
use crate::entities::coordinates::Column;
use crate::entities::file_matches::Match;
use crate::entities::metadata::RowMetadata;
use crate::entities::strmap::StrMap;

verus! {

/// The columns at which a row's matches start, in the order given.
pub open spec fn cols_of(matches: Seq<Match>) -> Seq<usize> {
    matches.map_values(|m: Match| m.column.0)
}

/// The color intervals of one row: each match's span runs to the start of the
/// next match, the last span runs to the row's end, and the first span is
/// pulled back to the row's first non-whitespace column.
pub open spec fn intervals_spec(cols: Seq<usize>, meta: RowMetadata) -> Seq<(Column, Column)> {
    Seq::new(
        cols.len(),
        |i: int|
            (
                if i == 0 {
                    meta.first_non_zero_pos
                } else {
                    Column(cols[i])
                },
                if i == cols.len() - 1 {
                    Column((meta.line_len - 1) as usize)
                } else {
                    Column(cols[i + 1])
                },
            ),
    )
}

/// What a palette lookup by matched text yields for the requested role.
pub open spec fn palette_color(
    p: Map<Seq<char>, Colors>,
    text: Seq<char>,
    color_type: ColorType,
) -> Option<Color> {
    if p.contains_key(text) {
        match color_type {
            ColorType::Background => Some(p[text].background),
        }
    } else {
        None
    }
}

/// Computes a row's color intervals from its ordered matches and metadata.
/// The caller owes a non-empty match list and a positive row length.
///
/// One interval is produced per match; the intervals are contiguous, the
/// last one ends at the row's final column, and the first one starts at the
/// row's first non-whitespace column regardless of the first match's column.
pub fn color_intervals_of(row_matches: &[Match], row_meta: &RowMetadata) -> (r: Vec<
    (Column, Column),
>)
    requires
        row_matches@.len() > 0,
        row_meta.line_len >= 1,
    ensures
        r@ == intervals_spec(cols_of(row_matches@), *row_meta),
        r@.len() == row_matches@.len(),
        forall|i: int| 0 <= i < r@.len() - 1 ==> r@[i].1 == r@[i + 1].0,
        r@[r@.len() - 1].1.0 == row_meta.line_len - 1,
        r@[0].0 == row_meta.first_non_zero_pos,
{
    let n = row_matches.len();
    let mut r: Vec<(Column, Column)> = Vec::new();
    let mut i: usize = 0;
    while i + 1 < n
        invariant
            n == row_matches@.len(),
            0 <= i <= n - 1,
            r@.len() == i,
            forall|k: int|
                0 <= k < i ==> #[trigger] r@[k] == (
                    row_matches@[k].column,
                    row_matches@[k + 1].column,
                ),
        decreases n - i,
    {
        let start = row_matches[i].column;
        let end = row_matches[i + 1].column;
        r.push((start, end));
        i += 1;
    }
    let last_start = row_matches[n - 1].column;
    let line_end = Column(row_meta.line_len - 1);
    r.push((last_start, line_end));
    let first_end = r[0].1;
    r[0] = (row_meta.first_non_zero_pos, first_end);
    proof {
        assert forall|k: int| 0 <= k < r@.len() implies r@[k] == intervals_spec(
            cols_of(row_matches@),
            *row_meta,
        )[k] by {
            assert(cols_of(row_matches@)[k] == row_matches@[k].column.0);
            if k < r@.len() - 1 {
                assert(cols_of(row_matches@)[k + 1] == row_matches@[k + 1].column.0);
            }
        }
        assert(r@ =~= intervals_spec(cols_of(row_matches@), *row_meta));
    }
    r
}

/// The capability the highlight use case needs from a palette: a keyword
/// color store and the row-interval calculation.
pub trait Colorer: Sized {
    /// The palette: configured colors by keyword text.
    spec fn palette(&self) -> Map<Seq<char>, Colors>;

    /// The implementation's internal invariant.
    spec fn wf(&self) -> bool;

    /// Read access to the whole palette.
    fn colors(&self) -> (r: &StrMap<Colors>)
        requires
            self.wf(),
        ensures
            r@ == self.palette(),
            r.wf(),
    ;

    /// Looks the matched text up and projects out the requested color role.
    fn color_text(&self, text: &str, color_type: ColorType) -> (r: Option<Color>)
        requires
            self.wf(),
        ensures
            r == palette_color(self.palette(), text@, color_type),
    ;

    /// Installs or overwrites one keyword's colors.
    fn update_palette(&mut self, text: String, colors: Colors)
        requires
            old(self).wf(),
        ensures
            final(self).wf(),
            final(self).palette() == old(self).palette().insert(text@, colors),
    ;

    /// The row-interval calculation; every implementation computes the same
    /// intervals.
    fn color_intervals(&self, row_matches: &[Match], row_meta: &RowMetadata) -> (r: Vec<
        (Column, Column),
    >)
        requires
            row_matches@.len() > 0,
            row_meta.line_len >= 1,
        ensures
            r@ == intervals_spec(cols_of(row_matches@), *row_meta),
    ;
}

} // verus!
