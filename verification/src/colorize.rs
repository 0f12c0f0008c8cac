//! Shorthands that paint a text in a style of one attribute.

use vstd::prelude::*;
use crate::color::Color;
use crate::colored::ColoredString;
use crate::style::{Style, StyleView};

verus! {

/// The text with a red foreground.
pub fn red(text: &str) -> (painted: ColoredString)
    ensures
        painted@ == StyleView::plain().with_fg(Color::Red).paint(text@),
{
    Style::new().fg(Color::Red).paint(text)
}

/// The text with a green foreground.
pub fn green(text: &str) -> (painted: ColoredString)
    ensures
        painted@ == StyleView::plain().with_fg(Color::Green).paint(text@),
{
    Style::new().fg(Color::Green).paint(text)
}

/// The text with a blue foreground.
pub fn blue(text: &str) -> (painted: ColoredString)
    ensures
        painted@ == StyleView::plain().with_fg(Color::Blue).paint(text@),
{
    Style::new().fg(Color::Blue).paint(text)
}

/// The text with a yellow foreground.
pub fn yellow(text: &str) -> (painted: ColoredString)
    ensures
        painted@ == StyleView::plain().with_fg(Color::Yellow).paint(text@),
{
    Style::new().fg(Color::Yellow).paint(text)
}

/// The text with a magenta foreground.
pub fn magenta(text: &str) -> (painted: ColoredString)
    ensures
        painted@ == StyleView::plain().with_fg(Color::Magenta).paint(text@),
{
    Style::new().fg(Color::Magenta).paint(text)
}

/// The text with a cyan foreground.
pub fn cyan(text: &str) -> (painted: ColoredString)
    ensures
        painted@ == StyleView::plain().with_fg(Color::Cyan).paint(text@),
{
    Style::new().fg(Color::Cyan).paint(text)
}

/// The text with a white foreground.
pub fn white(text: &str) -> (painted: ColoredString)
    ensures
        painted@ == StyleView::plain().with_fg(Color::White).paint(text@),
{
    Style::new().fg(Color::White).paint(text)
}

/// The text with a black foreground.
pub fn black(text: &str) -> (painted: ColoredString)
    ensures
        painted@ == StyleView::plain().with_fg(Color::Black).paint(text@),
{
    Style::new().fg(Color::Black).paint(text)
}

/// The text with a 24-bit foreground colour.
pub fn rgb(r: u8, g: u8, b: u8, text: &str) -> (painted: ColoredString)
    ensures
        painted@ == StyleView::plain().with_fg_rgb(r, g, b).paint(text@),
{
    Style::new().fg_rgb(r, g, b).paint(text)
}

/// The text with a 24-bit background colour.
pub fn on_rgb(r: u8, g: u8, b: u8, text: &str) -> (painted: ColoredString)
    ensures
        painted@ == StyleView::plain().with_bg_rgb(r, g, b).paint(text@),
{
    Style::new().bg_rgb(r, g, b).paint(text)
}

/// Painting, as methods of whatever holds a text.
///
/// An implementation says which text the value holds; every method then
/// paints that text in a fresh style of one attribute.
pub trait Colorize {
    /// The text that this value holds.
    spec fn text_view(&self) -> Seq<char>;

    /// The text that this value holds.
    fn as_text(&self) -> (text: &str)
        ensures
            text@ == self.text_view(),
    ;

    /// The text with a red foreground.
    fn red(&self) -> (painted: ColoredString)
        ensures
            painted@ == StyleView::plain().with_fg(Color::Red).paint(self.text_view()),
    {
        red(self.as_text())
    }

    /// The text with a green foreground.
    fn green(&self) -> (painted: ColoredString)
        ensures
            painted@ == StyleView::plain().with_fg(Color::Green).paint(self.text_view()),
    {
        green(self.as_text())
    }

    /// The text with a blue foreground.
    fn blue(&self) -> (painted: ColoredString)
        ensures
            painted@ == StyleView::plain().with_fg(Color::Blue).paint(self.text_view()),
    {
        blue(self.as_text())
    }

    /// The text with a yellow foreground.
    fn yellow(&self) -> (painted: ColoredString)
        ensures
            painted@ == StyleView::plain().with_fg(Color::Yellow).paint(self.text_view()),
    {
        yellow(self.as_text())
    }

    /// The text with a magenta foreground.
    fn magenta(&self) -> (painted: ColoredString)
        ensures
            painted@ == StyleView::plain().with_fg(Color::Magenta).paint(self.text_view()),
    {
        magenta(self.as_text())
    }

    /// The text with a cyan foreground.
    fn cyan(&self) -> (painted: ColoredString)
        ensures
            painted@ == StyleView::plain().with_fg(Color::Cyan).paint(self.text_view()),
    {
        cyan(self.as_text())
    }

    /// The text with a white foreground.
    fn white(&self) -> (painted: ColoredString)
        ensures
            painted@ == StyleView::plain().with_fg(Color::White).paint(self.text_view()),
    {
        white(self.as_text())
    }

    /// The text with a black foreground.
    fn black(&self) -> (painted: ColoredString)
        ensures
            painted@ == StyleView::plain().with_fg(Color::Black).paint(self.text_view()),
    {
        black(self.as_text())
    }

    /// The text in bold.
    fn bold(&self) -> (painted: ColoredString)
        ensures
            painted@ == StyleView::plain().with_bold().paint(self.text_view()),
    {
        Style::new().bold().paint(self.as_text())
    }

    /// The text in italic.
    fn italic(&self) -> (painted: ColoredString)
        ensures
            painted@ == StyleView::plain().with_italic().paint(self.text_view()),
    {
        Style::new().italic().paint(self.as_text())
    }

    /// The text in underline.
    fn underline(&self) -> (painted: ColoredString)
        ensures
            painted@ == StyleView::plain().with_underline().paint(self.text_view()),
    {
        Style::new().underline().paint(self.as_text())
    }

    /// The text with the given palette colour as foreground.
    fn color(&self, color: Color) -> (painted: ColoredString)
        ensures
            painted@ == StyleView::plain().with_fg(color).paint(self.text_view()),
    {
        Style::new().fg(color).paint(self.as_text())
    }

    /// The text with the given palette colour as background.
    fn bg_color(&self, color: Color) -> (painted: ColoredString)
        ensures
            painted@ == StyleView::plain().with_bg(color).paint(self.text_view()),
    {
        Style::new().bg(color).paint(self.as_text())
    }

    /// The text with a 24-bit foreground colour.
    fn rgb(&self, r: u8, g: u8, b: u8) -> (painted: ColoredString)
        ensures
            painted@ == StyleView::plain().with_fg_rgb(r, g, b).paint(self.text_view()),
    {
        Style::new().fg_rgb(r, g, b).paint(self.as_text())
    }

    /// The text with a 24-bit background colour.
    fn on_rgb(&self, r: u8, g: u8, b: u8) -> (painted: ColoredString)
        ensures
            painted@ == StyleView::plain().with_bg_rgb(r, g, b).paint(self.text_view()),
    {
        Style::new().bg_rgb(r, g, b).paint(self.as_text())
    }
}

impl Colorize for str {
    open spec fn text_view(&self) -> Seq<char> {
        self@
    }

    fn as_text(&self) -> (text: &str) {
        self
    }
}

impl Colorize for String {
    open spec fn text_view(&self) -> Seq<char> {
        self@
    }

    fn as_text(&self) -> (text: &str) {
        self.as_str()
    }
}

} // verus!
