//! An alternative palette implementation with the same behavior as the
//! standard one; kept as a second backend for the palette capability.

use vstd::prelude::*;
use crate::entities::color::{Color, ColorType, Colors};
use crate::entities::coordinates::Column;
use crate::entities::file_matches::Match;
use crate::entities::metadata::RowMetadata;
use crate::entities::strmap::StrMap;
use crate::ports::colorer::{color_intervals_of, Colorer};

verus! {

/// A keyword palette backed by the string-keyed map.
#[derive(Debug)]
pub struct Highlighter {
    color_config: StrMap<Colors>,
}

impl Highlighter {
    pub fn new(color_config: StrMap<Colors>) -> (r: Self)
        requires
            color_config.wf(),
        ensures
            r.wf(),
            r.palette() == color_config@,
    {
        Highlighter { color_config }
    }
}

impl Default for Highlighter {
    fn default() -> (r: Self)
        ensures
            r.wf(),
            r.palette() == Map::<Seq<char>, Colors>::empty(),
    {
        Highlighter { color_config: StrMap::new() }
    }
}

impl Colorer for Highlighter {
    closed spec fn palette(&self) -> Map<Seq<char>, Colors> {
        self.color_config@
    }

    closed spec fn wf(&self) -> bool {
        self.color_config.wf()
    }

    fn colors(&self) -> (r: &StrMap<Colors>) {
        &self.color_config
    }

    fn color_text(&self, text: &str, color_type: ColorType) -> (r: Option<Color>) {
        match self.color_config.get(text) {
            Some(config) => match color_type {
                ColorType::Background => Some(config.background),
            },
            None => None,
        }
    }

    fn update_palette(&mut self, text: String, colors: Colors) {
        self.color_config.insert(text, colors);
    }

    fn color_intervals(&self, row_matches: &[Match], row_meta: &RowMetadata) -> (r: Vec<
        (Column, Column),
    >) {
        color_intervals_of(row_matches, row_meta)
    }
}

} // verus!
