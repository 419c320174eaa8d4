//! Colours of the line. The colour behind a name is read by `ratatui`.

use ratatui::style::Color;
use std::str::FromStr;
use vstd::prelude::*;

verus! {

/// `ratatui::style::Color`, which is carried through as it is.
#[verifier::external_type_specification]
#[verifier::external_body]
pub struct ExColor(ratatui::style::Color);

/// The colour that `ratatui` reads out of a name, if it reads one.
pub uninterp spec fn named_color(name: Seq<char>) -> Option<Color>;

/// Calls `ratatui::style::Color::from_str`. Trusted: the result is the
/// colour that the crate reads out of `name`, and `None` where it reads none.
#[verifier::external_body]
fn parse_color(name: &str) -> (color: Option<Color>)
    ensures
        color == named_color(name@),
{
    Color::from_str(name).ok()
}

/// A colour of the line.
#[derive(Clone, Copy, Debug, PartialEq, Eq)]
pub enum Paint {
    /// The terminal's own colour.
    Reset,
    /// White.
    White,
    /// Red.
    Red,
    /// Dark gray, for the dimmed display.
    DarkGray,
    /// A colour that the configuration names.
    Named(Color),
}

/// Foreground and background of the line.
#[derive(Clone, Copy, Debug, PartialEq, Eq)]
pub struct Style {
    /// The colour of the text.
    pub fg: Paint,
    /// The colour behind it.
    pub bg: Paint,
}

/// Whether a name is `None`, in upper or lower case: the name that leaves
/// the terminal's own colour in place.
pub open spec fn is_none_name(name: Seq<char>) -> bool {
    &&& name.len() == 4
    &&& (name[0] == 'N' || name[0] == 'n')
    &&& (name[1] == 'O' || name[1] == 'o')
    &&& (name[2] == 'N' || name[2] == 'n')
    &&& (name[3] == 'E' || name[3] == 'e')
}

/// The colour for a name that is read as `parsed`: the terminal's own for
/// `None`, the colour read where one is read, else `fallback`.
pub open spec fn paint_for(name: Seq<char>, parsed: Option<Color>, fallback: Paint) -> Paint {
    if is_none_name(name) {
        Paint::Reset
    } else {
        match parsed {
            Some(color) => Paint::Named(color),
            None => fallback,
        }
    }
}

/// The colour for a name of the configuration: the terminal's own for
/// `None`, the named colour where the name is one, else `fallback`.
pub open spec fn configured_paint(name: Seq<char>, fallback: Paint) -> Paint {
    paint_for(name, named_color(name), fallback)
}

/// Whether a name is `None`, in upper or lower case.
pub fn names_none(name: &str) -> (none: bool)
    ensures
        none == is_none_name(name@),
{
    let glyphs = crate::text::chars_of(name);
    glyphs.len() == 4 && (glyphs[0] == 'N' || glyphs[0] == 'n') && (glyphs[1] == 'O'
        || glyphs[1] == 'o') && (glyphs[2] == 'N' || glyphs[2] == 'n') && (glyphs[3] == 'E'
        || glyphs[3] == 'e')
}

/// The colour for a name that is read as `parsed`.
pub fn choose_paint(name: &str, parsed: Option<Color>, fallback: Paint) -> (paint: Paint)
    ensures
        paint == paint_for(name@, parsed, fallback),
{
    if names_none(name) {
        Paint::Reset
    } else {
        match parsed {
            Some(color) => Paint::Named(color),
            None => fallback,
        }
    }
}

/// The colour for a name of the configuration.
pub fn parse_paint(name: &str, fallback: Paint) -> (paint: Paint)
    ensures
        paint == configured_paint(name@, fallback),
{
    choose_paint(name, parse_color(name), fallback)
}

} // verus!
