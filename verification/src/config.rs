//! User configuration: keyword-to-color entries as plain values, hex color
//! parsing, and the resolution that always yields a valid palette.
//!
//! The raw configuration arrives as optional text per keyword. Resolution is
//! total: an absent, empty or malformed configuration falls back to the
//! single default keyword "TODO" with the default gray, so initialization
//! never fails merely because of the configuration's shape.

use vstd::prelude::*;
use crate::entities::color::{default_color, Color, Colors};
use crate::entities::strmap::StrMap;
use vstd::string::{StrSliceExecFns, StringExecFns};

verus! {

/// The colors a user configured for one keyword, after parsing.
#[derive(Debug, Clone, Copy, PartialEq, Eq, Structural)]
pub struct UserColors {
    pub background: Color,
}

impl UserColors {
    /// The background used when a keyword's entry does not name one.
    pub fn default_background_color() -> (r: Color)
        ensures
            r == default_color(),
    {
        Color::new(134, 134, 134, 255)
    }
}

impl Default for UserColors {
    fn default() -> (r: Self)
        ensures
            r == (UserColors { background: default_color() }),
    {
        UserColors { background: Color::new(134, 134, 134, 255) }
    }
}

/// Decimal digits, and the letters a-f in either case.
pub open spec fn is_hex_digit(c: char) -> bool {
    (48 <= c as u32 <= 57) || (97 <= c as u32 <= 102) || (65 <= c as u32 <= 70)
}

/// The numeric value of one hex digit.
pub open spec fn hex_digit_val(c: char) -> int {
    let u = c as u32;
    if 48 <= u <= 57 {
        u - 48
    } else if 97 <= u <= 102 {
        u - 87
    } else {
        u - 55
    }
}

/// The byte written as two hex digits.
pub open spec fn hex_byte_val(hi: char, lo: char) -> int {
    16 * hex_digit_val(hi) + hex_digit_val(lo)
}

/// The color a hex literal denotes: a `#` followed by six digits (alpha 255)
/// or eight digits; anything else denotes no color.
pub open spec fn parse_hex_color_spec(s: Seq<char>) -> Option<Color> {
    if s.len() == 7 && s[0] as u32 == 35 && (forall|i: int| 1 <= i < 7 ==> is_hex_digit(
        #[trigger] s[i],
    )) {
        Some(
            Color {
                r: hex_byte_val(s[1], s[2]) as u8,
                g: hex_byte_val(s[3], s[4]) as u8,
                b: hex_byte_val(s[5], s[6]) as u8,
                a: 255,
            },
        )
    } else if s.len() == 9 && s[0] as u32 == 35 && (forall|i: int| 1 <= i < 9 ==> is_hex_digit(
        #[trigger] s[i],
    )) {
        Some(
            Color {
                r: hex_byte_val(s[1], s[2]) as u8,
                g: hex_byte_val(s[3], s[4]) as u8,
                b: hex_byte_val(s[5], s[6]) as u8,
                a: hex_byte_val(s[7], s[8]) as u8,
            },
        )
    } else {
        None
    }
}

/// The value of one hex digit, or nothing when the character is none.
fn hex_digit(c: char) -> (r: Option<u8>)
    ensures
        r is Some <==> is_hex_digit(c),
        r is Some ==> r->0 == hex_digit_val(c),
        r is Some ==> r->0 < 16,
{
    let u = c as u32;
    if 48 <= u && u <= 57 {
        Some((u - 48) as u8)
    } else if 97 <= u && u <= 102 {
        Some((u - 87) as u8)
    } else if 65 <= u && u <= 70 {
        Some((u - 55) as u8)
    } else {
        None
    }
}

/// The byte at two hex digit positions of `s`, or nothing when either
/// character is no hex digit.
fn hex_byte(s: &str, i: usize) -> (r: Option<u8>)
    requires
        i + 1 < s@.len(),
        i + 1 <= usize::MAX,
    ensures
        r is Some <==> is_hex_digit(s@[i as int]) && is_hex_digit(s@[i as int + 1]),
        r is Some ==> r->0 == hex_byte_val(s@[i as int], s@[i as int + 1]),
{
    let hi = match hex_digit(s.get_char(i)) {
        Some(v) => v,
        None => {
            return None;
        },
    };
    let lo = match hex_digit(s.get_char(i + 1)) {
        Some(v) => v,
        None => {
            return None;
        },
    };
    Some(16 * hi + lo)
}

/// Parses a standard 6- or 8-digit hex color literal.
pub fn parse_hex_color(s: &str) -> (r: Option<Color>)
    ensures
        r == parse_hex_color_spec(s@),
{
    let n = s.unicode_len();
    if n != 7 && n != 9 {
        return None;
    }
    if s.get_char(0) as u32 != 35 {
        return None;
    }
    let r_byte = match hex_byte(s, 1) {
        Some(v) => v,
        None => {
            return None;
        },
    };
    let g_byte = match hex_byte(s, 3) {
        Some(v) => v,
        None => {
            return None;
        },
    };
    let b_byte = match hex_byte(s, 5) {
        Some(v) => v,
        None => {
            return None;
        },
    };
    if n == 7 {
        return Some(Color::new(r_byte, g_byte, b_byte, 255));
    }
    let a_byte = match hex_byte(s, 7) {
        Some(v) => v,
        None => {
            return None;
        },
    };
    Some(Color::new(r_byte, g_byte, b_byte, a_byte))
}

/// The views of raw configuration entries: keyword text and optional hex
/// literal.
pub open spec fn entry_views(s: Seq<(String, Option<String>)>) -> Seq<
    (Seq<char>, Option<Seq<char>>),
> {
    s.map_values(
        |p: (String, Option<String>)|
            (
                p.0@,
                match p.1 {
                    Some(h) => Some(h@),
                    None => None,
                },
            ),
    )
}

/// An entry whose hex literal is present but denotes no color.
pub open spec fn entry_malformed(e: (Seq<char>, Option<Seq<char>>)) -> bool {
    e.1 is Some && parse_hex_color_spec(e.1->0) is None
}

/// The color one well-formed entry yields.
pub open spec fn entry_color(e: (Seq<char>, Option<Seq<char>>)) -> Colors {
    match e.1 {
        Some(h) => Colors { background: parse_hex_color_spec(h)->0 },
        None => Colors { background: default_color() },
    }
}

/// The palette a sequence of well-formed entries yields; later entries win.
pub open spec fn palette_map(s: Seq<(Seq<char>, Option<Seq<char>>)>) -> Map<Seq<char>, Colors>
    decreases s.len(),
{
    if s.len() == 0 {
        Map::empty()
    } else {
        palette_map(s.drop_last()).insert(s.last().0, entry_color(s.last()))
    }
}

/// The fallback palette: the single keyword "TODO" with the default gray.
pub open spec fn default_palette_spec() -> Map<Seq<char>, Colors> {
    Map::empty().insert("TODO"@, Colors { background: default_color() })
}

/// What resolution yields: the entries' palette, or the fallback when the
/// configuration is absent, empty, or holds a malformed color.
pub open spec fn resolved_palette(h: Option<Seq<(Seq<char>, Option<Seq<char>>)>>) -> Map<
    Seq<char>,
    Colors,
> {
    match h {
        None => default_palette_spec(),
        Some(entries) => {
            if entries.len() == 0 || exists|i: int|
                0 <= i < entries.len() && entry_malformed(#[trigger] entries[i]) {
                default_palette_spec()
            } else {
                palette_map(entries)
            }
        },
    }
}

/// The fallback palette as a value.
pub fn default_palette() -> (r: StrMap<Colors>)
    ensures
        r.wf(),
        r@ == default_palette_spec(),
        r.entries().len() > 0,
{
    let mut m = StrMap::<Colors>::new();
    m.insert(String::from_str("TODO"), Colors::new(Color::new(134, 134, 134, 255)));
    m
}

/// Resolves the raw configuration into a palette. Total: whatever the input,
/// the result is a usable palette with at least one keyword.
pub fn build_palette(highlights: Option<Vec<(String, Option<String>)>>) -> (r: StrMap<Colors>)
    ensures
        r.wf(),
        r@ == resolved_palette(
            match highlights {
                Some(entries) => Some(entry_views(entries@)),
                None => None,
            },
        ),
        r.entries().len() > 0,
{
    let entries = match highlights {
        Some(entries) => entries,
        None => {
            return default_palette();
        },
    };
    let n = entries.len();
    if n == 0 {
        return default_palette();
    }
    let ghost views = entry_views(entries@);
    let mut m = StrMap::<Colors>::new();
    let mut bad = false;
    let mut i: usize = 0;
    while i < n && !bad
        invariant
            n == entries@.len(),
            views == entry_views(entries@),
            views.len() == n,
            m.wf(),
            0 <= i <= n,
            !bad ==> m@ == palette_map(views.take(i as int)),
            !bad ==> forall|k: int| 0 <= k < i ==> !entry_malformed(#[trigger] views[k]),
            bad ==> exists|k: int| 0 <= k < views.len() && entry_malformed(#[trigger] views[k]),
            i > 0 && !bad ==> m.entries().len() > 0,
        decreases n - i,
    {
        let color_opt = match &entries[i].1 {
            Some(h) => parse_hex_color(h.as_str()),
            None => Some(Color::default()),
        };
        match color_opt {
            Some(color) => {
                let key = entries[i].0.clone();
                m.insert(key, Colors::new(color));
                proof {
                    assert(views.take(i + 1).drop_last() =~= views.take(i as int));
                    assert(m@ == palette_map(views.take(i + 1)));
                }
            },
            None => {
                proof {
                    assert(entry_malformed(views[i as int]));
                }
                bad = true;
            },
        }
        i += 1;
    }
    if bad {
        return default_palette();
    }
    proof {
        assert(views.take(n as int) =~= views);
    }
    m
}

} // verus!
