//! The highlight controller: adapts parsed user configuration onto the
//! highlight use case.

use vstd::prelude::*;
use crate::config::UserColors;
use crate::entities::color::{Color, ColorType, Colors};
use crate::entities::coordinates::Column;
use crate::entities::file_matches::Match;
use crate::entities::metadata::RowMetadata;
use crate::entities::strmap::StrMap;
use crate::ports::colorer::{cols_of, intervals_spec, palette_color, Colorer};
use crate::use_cases::highlight::Highlight as UseCase;

verus! {

/// The palette after installing a sequence of user entries in order; later
/// entries win.
pub open spec fn palette_after(
    m: Map<Seq<char>, Colors>,
    s: Seq<(String, UserColors)>,
) -> Map<Seq<char>, Colors>
    decreases s.len(),
{
    if s.len() == 0 {
        m
    } else {
        palette_after(m, s.drop_last()).insert(
            s.last().0@,
            Colors { background: s.last().1.background },
        )
    }
}

pub struct Highlight<T> {
    inner: UseCase<T>,
}

impl<T> Highlight<T> {
    /// The wrapped palette backend.
    pub closed spec fn colorer(&self) -> T {
        self.inner.colorer()
    }

    pub fn new(v: T) -> (r: Self)
        ensures
            r.colorer() == v,
    {
        Highlight { inner: UseCase::new(v) }
    }
}

impl<T: Colorer> Highlight<T> {
    /// Read access to the whole palette.
    pub fn colors(&self) -> (r: &StrMap<Colors>)
        requires
            self.colorer().wf(),
        ensures
            r@ == self.colorer().palette(),
            r.wf(),
    {
        self.inner.colors()
    }

    /// The color configured for the matched text, if any.
    pub fn highlight(&self, text: &str, color_type: ColorType) -> (r: Option<Color>)
        requires
            self.colorer().wf(),
        ensures
            r == palette_color(self.colorer().palette(), text@, color_type),
    {
        self.inner.highlight(text, color_type)
    }

    /// A row's color intervals.
    pub fn color_intervals(&self, row_matches: &[Match], row_meta: &RowMetadata) -> (r: Vec<
        (Column, Column),
    >)
        requires
            row_matches@.len() > 0,
            row_meta.line_len >= 1,
        ensures
            r@ == intervals_spec(cols_of(row_matches@), *row_meta),
    {
        self.inner.color_intervals(row_matches, row_meta)
    }

    /// Installs every entry of the parsed configuration, in order.
    pub fn update_palette(&mut self, palette: Vec<(String, UserColors)>)
        requires
            old(self).colorer().wf(),
        ensures
            final(self).colorer().wf(),
            final(self).colorer().palette() == palette_after(
                old(self).colorer().palette(),
                palette@,
            ),
    {
        let ghost entries = palette@;
        let n = palette.len();
        let mut i: usize = 0;
        while i < n
            invariant
                n == entries.len(),
                palette@ == entries,
                0 <= i <= n,
                self.colorer().wf(),
                self.colorer().palette() == palette_after(
                    old(self).colorer().palette(),
                    entries.take(i as int),
                ),
            decreases n - i,
        {
            let key = palette[i].0.clone();
            let user_colors = palette[i].1;
            let colors = Colors::new(
                Color::new(
                    user_colors.background.r,
                    user_colors.background.g,
                    user_colors.background.b,
                    user_colors.background.a,
                ),
            );
            self.inner.update_palette(key, colors);
            proof {
                assert(entries.take(i + 1).drop_last() =~= entries.take(i as int));
                assert(self.colorer().palette() == palette_after(
                    old(self).colorer().palette(),
                    entries.take(i + 1),
                ));
            }
            i += 1;
        }
        proof {
            assert(entries.take(n as int) =~= entries);
        }
    }
}

} // verus!
