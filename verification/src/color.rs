//! Terminal colours. The colour sequences themselves come from the `colored`
//! crate, which decides from the terminal and the environment whether to
//! write any; this module states what a coloured text can look like.

use vstd::prelude::*;
use colored::{Color, Colorize};
use crate::text::occurs_at;

verus! {

/// One of the eight colours of the standard terminal palette.
#[derive(Clone, Copy, Debug, PartialEq, Eq)]
pub enum Hue {
    Black,
    Red,
    Green,
    Yellow,
    Blue,
    Magenta,
    Cyan,
    White,
}

/// A foreground colour: a hue in its normal or its bright shade.
#[derive(Clone, Copy, Debug, PartialEq, Eq)]
pub struct Tint {
    pub hue: Hue,
    pub bright: bool,
}

/// The digit that selects `hue` within a shade.
pub open spec fn hue_digit(hue: Hue) -> char {
    match hue {
        Hue::Black => '0',
        Hue::Red => '1',
        Hue::Green => '2',
        Hue::Yellow => '3',
        Hue::Blue => '4',
        Hue::Magenta => '5',
        Hue::Cyan => '6',
        Hue::White => '7',
    }
}

/// The sequence that switches the foreground to `tint`: the escape
/// character, `[`, a 3 for the normal shade or a 9 for the bright one, the
/// hue's digit, and `m`.
pub open spec fn tint_start(tint: Tint) -> Seq<char> {
    seq!['\x1b', '[', if tint.bright {
        '9'
    } else {
        '3'
    }, hue_digit(tint.hue), 'm']
}

/// The sequence that switches all styling off.
pub open spec fn style_reset() -> Seq<char> {
    seq!['\x1b', '[', '0', 'm']
}

/// `text` with `start` put in behind every reset that it holds, the resets
/// found from the left.
pub open spec fn reopened(text: Seq<char>, start: Seq<char>) -> Seq<char>
    decreases text.len(),
{
    if text.len() < 4 {
        text
    } else if occurs_at(text, 0, style_reset()) {
        style_reset() + start + reopened(text.skip(4), start)
    } else {
        seq![text[0]] + reopened(text.skip(1), start)
    }
}

/// `text` in `tint`: the tint's start sequence, the text, and a reset. Where
/// the text itself holds a reset, the tint is switched on again right after
/// it, so that the whole text shows in the tint.
pub open spec fn painted(text: Seq<char>, tint: Tint) -> Seq<char> {
    tint_start(tint) + reopened(text, tint_start(tint)) + style_reset()
}

/// `out` is what painting `text` in `tint` can give: the painted text where
/// colours are switched on, the text itself where they are switched off.
pub open spec fn is_painted(out: Seq<char>, text: Seq<char>, tint: Tint) -> bool {
    out == text || out == painted(text, tint)
}

/// `Colorize::color` of the `colored` crate with one of its eight normal
/// colours, and the `Display` of the `ColoredString` it gives. Believed of
/// them: the result is the text between the colour's start sequence and a
/// reset, the start sequence repeated after every reset inside the text; or,
/// where the crate finds colours switched off, the text unchanged.
#[verifier::external_body]
fn paint_normal(text: &str, hue: Hue) -> (out: String)
    ensures
        is_painted(out@, text@, (Tint { hue, bright: false })),
{
    let color = match hue {
        Hue::Black => Color::Black,
        Hue::Red => Color::Red,
        Hue::Green => Color::Green,
        Hue::Yellow => Color::Yellow,
        Hue::Blue => Color::Blue,
        Hue::Magenta => Color::Magenta,
        Hue::Cyan => Color::Cyan,
        Hue::White => Color::White,
    };
    text.color(color).to_string()
}

/// `Colorize::color` of the `colored` crate with one of its eight bright
/// colours, and the `Display` of the `ColoredString` it gives. Believed of
/// them: the same as of the normal colours, with the bright start sequence.
#[verifier::external_body]
fn paint_bright(text: &str, hue: Hue) -> (out: String)
    ensures
        is_painted(out@, text@, (Tint { hue, bright: true })),
{
    let color = match hue {
        Hue::Black => Color::BrightBlack,
        Hue::Red => Color::BrightRed,
        Hue::Green => Color::BrightGreen,
        Hue::Yellow => Color::BrightYellow,
        Hue::Blue => Color::BrightBlue,
        Hue::Magenta => Color::BrightMagenta,
        Hue::Cyan => Color::BrightCyan,
        Hue::White => Color::BrightWhite,
    };
    text.color(color).to_string()
}

/// Paints `text` in `tint`. Whether colour sequences are written is decided
/// outside this crate, so the result is one of two texts.
pub fn paint(text: &str, tint: Tint) -> (out: String)
    ensures
        is_painted(out@, text@, tint),
{
    if tint.bright {
        paint_bright(text, tint.hue)
    } else {
        paint_normal(text, tint.hue)
    }
}

/// The tint of the labels in front of the facts: bright blue.
pub open spec fn label_tint() -> Tint {
    Tint { hue: Hue::Blue, bright: true }
}

} // verus!
