//! The colours a style can select: the sixteen palette entries and 24-bit RGB.

use vstd::prelude::*;

verus! {

/// One of the sixteen colours of the terminal palette: eight standard
/// colours and their bright variants.
#[derive(Debug, Clone, Copy)]
pub enum Color {
    Black,
    Red,
    Green,
    Yellow,
    Blue,
    Magenta,
    Cyan,
    White,
    BrightBlack,
    BrightRed,
    BrightGreen,
    BrightYellow,
    BrightBlue,
    BrightMagenta,
    BrightCyan,
    BrightWhite,
}

impl Color {
    /// Position of the colour within its group of eight, standard or bright.
    pub open spec fn position(self) -> nat {
        match self {
            Color::Black | Color::BrightBlack => 0,
            Color::Red | Color::BrightRed => 1,
            Color::Green | Color::BrightGreen => 2,
            Color::Yellow | Color::BrightYellow => 3,
            Color::Blue | Color::BrightBlue => 4,
            Color::Magenta | Color::BrightMagenta => 5,
            Color::Cyan | Color::BrightCyan => 6,
            Color::White | Color::BrightWhite => 7,
        }
    }

    /// Whether the colour belongs to the bright group.
    pub open spec fn is_bright(self) -> bool {
        match self {
            Color::BrightBlack
            | Color::BrightRed
            | Color::BrightGreen
            | Color::BrightYellow
            | Color::BrightBlue
            | Color::BrightMagenta
            | Color::BrightCyan
            | Color::BrightWhite => true,
            _ => false,
        }
    }

    /// SGR parameter that selects this colour as foreground: `30..=37` for
    /// the standard group, `90..=97` for the bright group.
    pub open spec fn spec_fg_code(&self) -> u8 {
        if self.is_bright() {
            (90 + self.position()) as u8
        } else {
            (30 + self.position()) as u8
        }
    }

    /// SGR parameter that selects this colour as background: ten above the
    /// foreground parameter.
    pub open spec fn spec_bg_code(&self) -> u8 {
        (self.spec_fg_code() + 10) as u8
    }

    /// The SGR parameter that selects this colour as foreground.
    #[verifier::when_used_as_spec(spec_fg_code)]
    pub fn fg_code(&self) -> (code: u8)
        ensures
            code == self.spec_fg_code(),
    {
        match self {
            Color::Black => 30,
            Color::Red => 31,
            Color::Green => 32,
            Color::Yellow => 33,
            Color::Blue => 34,
            Color::Magenta => 35,
            Color::Cyan => 36,
            Color::White => 37,
            Color::BrightBlack => 90,
            Color::BrightRed => 91,
            Color::BrightGreen => 92,
            Color::BrightYellow => 93,
            Color::BrightBlue => 94,
            Color::BrightMagenta => 95,
            Color::BrightCyan => 96,
            Color::BrightWhite => 97,
        }
    }

    /// The SGR parameter that selects this colour as background.
    #[verifier::when_used_as_spec(spec_bg_code)]
    pub fn bg_code(&self) -> (code: u8)
        ensures
            code == self.spec_bg_code(),
    {
        match self {
            Color::Black => 40,
            Color::Red => 41,
            Color::Green => 42,
            Color::Yellow => 43,
            Color::Blue => 44,
            Color::Magenta => 45,
            Color::Cyan => 46,
            Color::White => 47,
            Color::BrightBlack => 100,
            Color::BrightRed => 101,
            Color::BrightGreen => 102,
            Color::BrightYellow => 103,
            Color::BrightBlue => 104,
            Color::BrightMagenta => 105,
            Color::BrightCyan => 106,
            Color::BrightWhite => 107,
        }
    }
}

/// A 24-bit colour given by its red, green and blue channels.
#[derive(Debug, Clone, Copy, PartialEq, Eq, Structural)]
pub struct RgbColor {
    pub r: u8,
    pub g: u8,
    pub b: u8,
}

impl RgbColor {
    /// The colour with the given channels.
    pub fn new(r: u8, g: u8, b: u8) -> (c: RgbColor)
        ensures
            c == (RgbColor { r, g, b }),
    {
        RgbColor { r, g, b }
    }
}

/// What a style says about one of the two colour layers, foreground or
/// background: nothing, a palette colour, or a 24-bit colour.
#[derive(Debug, Clone, Copy)]
pub enum Coloring {
    Unset,
    Named(Color),
    Rgb(RgbColor),
}

} // verus!
