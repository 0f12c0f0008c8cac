//! Text bound to the style that displays it.

use vstd::prelude::*;
use crate::colorize::Colorize;
use crate::style::{Style, StyleView};

verus! {

/// The mathematical content of a [`ColoredString`].
pub struct ColoredStringView {
    pub text: Seq<char>,
    pub style: StyleView,
}

impl ColoredStringView {
    /// The characters that display the text in its style.
    pub open spec fn rendered(self) -> Seq<char> {
        self.style.render(self.text)
    }
}

/// A piece of text together with the style it was painted with.
#[derive(Debug)]
pub struct ColoredString {
    /// The text itself, as it was given.
    pub text: String,
    style: Style,
}

impl View for ColoredString {
    type V = ColoredStringView;

    closed spec fn view(&self) -> ColoredStringView {
        ColoredStringView { text: self.text@, style: self.style@ }
    }
}

impl ColoredString {
    /// Copies the text and binds it to the style.
    pub(crate) fn bind(text: &str, style: Style) -> (bound: ColoredString)
        ensures
            bound@ == style@.paint(text@),
    {
        ColoredString { text: text.to_owned(), style }
    }

    /// Renders the text in its style: the text alone where the style sets
    /// nothing, else the style's escape sequence, the text, and the reset
    /// sequence.
    pub fn to_string(&self) -> (out: String)
        ensures
            out@ == self@.rendered(),
    {
        let mut out = self.style.format_prefix();
        if out.as_str().is_empty() {
            return self.text.clone();
        }
        out.append(self.text.as_str());
        out.append(Style::format_suffix());
        out
    }
}

impl Clone for ColoredString {
    fn clone(&self) -> (copy: ColoredString)
        ensures
            copy@ == self@,
    {
        ColoredString { text: self.text.clone(), style: self.style }
    }
}

impl AsRef<str> for ColoredString {
    /// The text itself, without its style.
    fn as_ref(&self) -> (text: &str)
        ensures
            text@ == self@.text,
    {
        self.text.as_str()
    }
}

impl Colorize for ColoredString {
    open spec fn text_view(&self) -> Seq<char> {
        self@.text
    }

    /// The text itself: a style it was painted with before is left behind.
    fn as_text(&self) -> (text: &str) {
        self.text.as_str()
    }
}

} // verus!
