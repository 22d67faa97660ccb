//! The highlight use case: color lookup and interval calculation over any
//! palette backend.

use vstd::prelude::*;
use crate::entities::color::{Color, ColorType, Colors};
use crate::entities::coordinates::Column;
use crate::entities::file_matches::Match;
use crate::entities::metadata::RowMetadata;
use crate::entities::strmap::StrMap;
use crate::ports::colorer::{cols_of, intervals_spec, palette_color, Colorer};

verus! {

pub struct Highlight<T> {
    inner: T,
}

impl<T> Highlight<T> {
    /// The wrapped palette backend.
    pub closed spec fn colorer(&self) -> T {
        self.inner
    }

    pub fn new(v: T) -> (r: Self)
        ensures
            r.colorer() == v,
    {
        Highlight { inner: v }
    }
}

impl<T: Colorer> Highlight<T> {
    /// Read access to the whole palette.
    pub fn colors(&self) -> (r: &StrMap<Colors>)
        requires
            self.colorer().wf(),
        ensures
            r@ == self.colorer().palette(),
            r.wf(),
    {
        self.inner.colors()
    }

    /// The color configured for the matched text, if any.
    pub fn highlight(&self, text: &str, color_type: ColorType) -> (r: Option<Color>)
        requires
            self.colorer().wf(),
        ensures
            r == palette_color(self.colorer().palette(), text@, color_type),
    {
        self.inner.color_text(text, color_type)
    }

    /// Installs or overwrites one keyword's colors.
    pub fn update_palette(&mut self, key: String, value: Colors)
        requires
            old(self).colorer().wf(),
        ensures
            final(self).colorer().wf(),
            final(self).colorer().palette() == old(self).colorer().palette().insert(key@, value),
    {
        self.inner.update_palette(key, value);
    }

    /// A row's color intervals; see the palette capability for the law the
    /// result obeys.
    pub fn color_intervals(&self, row_match_beginnings: &[Match], row_meta: &RowMetadata) -> (r:
        Vec<(Column, Column)>)
        requires
            row_match_beginnings@.len() > 0,
            row_meta.line_len >= 1,
        ensures
            r@ == intervals_spec(cols_of(row_match_beginnings@), *row_meta),
    {
        self.inner.color_intervals(row_match_beginnings, row_meta)
    }
}

} // verus!
