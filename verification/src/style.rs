//! Styles: which attributes to switch on, and the escape sequence that does it.

use vstd::prelude::*;
use crate::color::{Color, Coloring, RgbColor};
use crate::colored::{ColoredString, ColoredStringView};
use crate::decimal::{decimal, decimal_string};
use crate::escape::{
    attribute_sequence, bg_rgb_lead, contents, fg_rgb_lead, introducer, join_codes, reset,
    rgb_code, rgb_code_string, terminator,
};

verus! {

/// The code list of a foreground colouring: empty when unset, else the one
/// code that selects the colour.
pub open spec fn fg_codes(fg: Coloring) -> Seq<Seq<char>> {
    match fg {
        Coloring::Unset => seq![],
        Coloring::Named(color) => seq![decimal(color.spec_fg_code() as nat)],
        Coloring::Rgb(rgb) => seq![rgb_code(fg_rgb_lead(), rgb)],
    }
}

/// The code list of a background colouring: empty when unset, else the one
/// code that selects the colour.
pub open spec fn bg_codes(bg: Coloring) -> Seq<Seq<char>> {
    match bg {
        Coloring::Unset => seq![],
        Coloring::Named(color) => seq![decimal(color.spec_bg_code() as nat)],
        Coloring::Rgb(rgb) => seq![rgb_code(bg_rgb_lead(), rgb)],
    }
}

/// The code list of a flag: the code when the flag is set, else empty.
pub open spec fn flag_codes(set: bool, code: nat) -> Seq<Seq<char>> {
    if set {
        seq![decimal(code)]
    } else {
        seq![]
    }
}

/// The mathematical content of a [`Style`].
pub struct StyleView {
    pub fg: Coloring,
    pub bg: Coloring,
    pub bold: bool,
    pub italic: bool,
    pub underline: bool,
}

impl StyleView {
    /// The style that sets nothing.
    pub open spec fn plain() -> StyleView {
        StyleView {
            fg: Coloring::Unset,
            bg: Coloring::Unset,
            bold: false,
            italic: false,
            underline: false,
        }
    }

    /// This style with the foreground replaced by a palette colour.
    pub open spec fn with_fg(self, color: Color) -> StyleView {
        StyleView { fg: Coloring::Named(color), ..self }
    }

    /// This style with the background replaced by a palette colour.
    pub open spec fn with_bg(self, color: Color) -> StyleView {
        StyleView { bg: Coloring::Named(color), ..self }
    }

    /// This style with the foreground replaced by a 24-bit colour.
    pub open spec fn with_fg_rgb(self, r: u8, g: u8, b: u8) -> StyleView {
        StyleView { fg: Coloring::Rgb(RgbColor { r, g, b }), ..self }
    }

    /// This style with the background replaced by a 24-bit colour.
    pub open spec fn with_bg_rgb(self, r: u8, g: u8, b: u8) -> StyleView {
        StyleView { bg: Coloring::Rgb(RgbColor { r, g, b }), ..self }
    }

    /// This style with bold switched on.
    pub open spec fn with_bold(self) -> StyleView {
        StyleView { bold: true, ..self }
    }

    /// This style with italic switched on.
    pub open spec fn with_italic(self) -> StyleView {
        StyleView { italic: true, ..self }
    }

    /// This style with underline switched on.
    pub open spec fn with_underline(self) -> StyleView {
        StyleView { underline: true, ..self }
    }

    /// The attribute codes of the style, in the order in which they are
    /// written: foreground, background, bold (`1`), italic (`3`),
    /// underline (`4`).
    pub open spec fn codes(self) -> Seq<Seq<char>> {
        fg_codes(self.fg) + bg_codes(self.bg) + flag_codes(self.bold, 1) + flag_codes(
            self.italic,
            3,
        ) + flag_codes(self.underline, 4)
    }

    /// The text bound to this style.
    pub open spec fn paint(self, text: Seq<char>) -> ColoredStringView {
        ColoredStringView { text, style: self }
    }

    /// What is written before the text: nothing for a style without codes,
    /// else the attribute sequence of its codes.
    pub open spec fn prefix(self) -> Seq<char> {
        if self.codes().len() == 0 {
            Seq::empty()
        } else {
            attribute_sequence(self.codes())
        }
    }

    /// The text as this style displays it: unchanged where the prefix is
    /// empty, else between the prefix and the reset sequence.
    pub open spec fn render(self, text: Seq<char>) -> Seq<char> {
        if self.prefix().len() == 0 {
            text
        } else {
            self.prefix() + text + reset()
        }
    }
}

/// A set of display attributes to apply to text.
#[derive(Debug, Clone, Copy)]
pub struct Style {
    fg: Coloring,
    bg: Coloring,
    bold: bool,
    italic: bool,
    underline: bool,
}

impl View for Style {
    type V = StyleView;

    closed spec fn view(&self) -> StyleView {
        StyleView {
            fg: self.fg,
            bg: self.bg,
            bold: self.bold,
            italic: self.italic,
            underline: self.underline,
        }
    }
}

impl Default for Style {
    /// The style that sets nothing.
    fn default() -> (style: Style)
        ensures
            style@ == StyleView::plain(),
    {
        Style {
            fg: Coloring::Unset,
            bg: Coloring::Unset,
            bold: false,
            italic: false,
            underline: false,
        }
    }
}

/// Appends the code of a foreground colouring, if it has one.
fn push_fg_codes(codes: &mut Vec<String>, fg: Coloring)
    ensures
        contents(final(codes)@) == contents(old(codes)@) + fg_codes(fg),
{
    match fg {
        Coloring::Unset => {},
        Coloring::Named(color) => {
            codes.push(decimal_string(color.fg_code()));
        },
        Coloring::Rgb(rgb) => {
            proof {
                reveal_strlit("38;2;");
                assert("38;2;"@ == fg_rgb_lead());
            }
            codes.push(rgb_code_string("38;2;", rgb));
        },
    }
}

/// Appends the code of a background colouring, if it has one.
fn push_bg_codes(codes: &mut Vec<String>, bg: Coloring)
    ensures
        contents(final(codes)@) == contents(old(codes)@) + bg_codes(bg),
{
    match bg {
        Coloring::Unset => {},
        Coloring::Named(color) => {
            codes.push(decimal_string(color.bg_code()));
        },
        Coloring::Rgb(rgb) => {
            proof {
                reveal_strlit("48;2;");
                assert("48;2;"@ == bg_rgb_lead());
            }
            codes.push(rgb_code_string("48;2;", rgb));
        },
    }
}

/// Appends the code of a flag, if the flag is set.
fn push_flag_code(codes: &mut Vec<String>, set: bool, code: u8)
    ensures
        contents(final(codes)@) == contents(old(codes)@) + flag_codes(set, code as nat),
{
    if set {
        codes.push(decimal_string(code));
    }
}

impl Style {
    /// The style that sets nothing.
    pub fn new() -> (style: Style)
        ensures
            style@ == StyleView::plain(),
    {
        Style::default()
    }

    /// Sets the foreground to a palette colour, in place of any foreground
    /// set before.
    pub fn fg(self, color: Color) -> (style: Style)
        ensures
            style@ == self@.with_fg(color),
    {
        let mut style = self;
        style.fg = Coloring::Named(color);
        style
    }

    /// Sets the background to a palette colour, in place of any background
    /// set before.
    pub fn bg(self, color: Color) -> (style: Style)
        ensures
            style@ == self@.with_bg(color),
    {
        let mut style = self;
        style.bg = Coloring::Named(color);
        style
    }

    /// Sets the foreground to a 24-bit colour, in place of any foreground
    /// set before.
    pub fn fg_rgb(self, r: u8, g: u8, b: u8) -> (style: Style)
        ensures
            style@ == self@.with_fg_rgb(r, g, b),
    {
        let mut style = self;
        style.fg = Coloring::Rgb(RgbColor::new(r, g, b));
        style
    }

    /// Sets the background to a 24-bit colour, in place of any background
    /// set before.
    pub fn bg_rgb(self, r: u8, g: u8, b: u8) -> (style: Style)
        ensures
            style@ == self@.with_bg_rgb(r, g, b),
    {
        let mut style = self;
        style.bg = Coloring::Rgb(RgbColor::new(r, g, b));
        style
    }

    /// Switches bold on.
    pub fn bold(self) -> (style: Style)
        ensures
            style@ == self@.with_bold(),
    {
        let mut style = self;
        style.bold = true;
        style
    }

    /// Switches italic on.
    pub fn italic(self) -> (style: Style)
        ensures
            style@ == self@.with_italic(),
    {
        let mut style = self;
        style.italic = true;
        style
    }

    /// Switches underline on.
    pub fn underline(self) -> (style: Style)
        ensures
            style@ == self@.with_underline(),
    {
        let mut style = self;
        style.underline = true;
        style
    }

    /// The escape sequence that switches this style's attributes on; empty
    /// for a style that sets nothing.
    pub fn format_prefix(&self) -> (prefix: String)
        ensures
            prefix@ == self@.prefix(),
    {
        let mut codes: Vec<String> = Vec::new();
        assert(contents(codes@) == Seq::<Seq<char>>::empty());
        push_fg_codes(&mut codes, self.fg);
        push_bg_codes(&mut codes, self.bg);
        push_flag_code(&mut codes, self.bold, 1);
        push_flag_code(&mut codes, self.italic, 3);
        push_flag_code(&mut codes, self.underline, 4);
        assert(contents(codes@) == self@.codes());
        if codes.len() == 0 {
            return String::new();
        }
        proof {
            reveal_strlit("\x1b[");
            reveal_strlit("m");
            assert("\x1b["@ == introducer());
            assert("m"@ == terminator());
        }
        let mut prefix = String::from_str("\x1b[");
        prefix.append(join_codes(&codes).as_str());
        prefix.append("m");
        prefix
    }

    /// The escape sequence that switches every attribute off again.
    pub fn format_suffix() -> (suffix: &'static str)
        ensures
            suffix@ == reset(),
    {
        proof {
            reveal_strlit("\x1b[0m");
        }
        "\x1b[0m"
    }

    /// Binds the text to a copy of this style.
    pub fn paint(&self, text: &str) -> (painted: ColoredString)
        ensures
            painted@ == self@.paint(text@),
    {
        ColoredString::bind(text, *self)
    }
}

} // verus!
