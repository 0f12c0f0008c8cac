//! What holds of every style and every text.

use vstd::prelude::*;
use crate::color::{Color, RgbColor};
use crate::colored::ColoredString;
use crate::decimal::decimal;
use crate::escape::{
    attribute_sequence, bg_rgb_lead, fg_rgb_lead, introducer, reset, rgb_code, terminator,
};
use crate::style::{fg_codes, StyleView};

verus! {

/// A style that sets a palette foreground and nothing else has one code, the
/// colour's foreground code, and its prefix is ESC `[`, that code in
/// decimal, and `m`.
pub proof fn law_named_foreground_alone(color: Color)
    ensures
        StyleView::plain().with_fg(color).codes() == seq![decimal(color.fg_code() as nat)],
        StyleView::plain().with_fg(color).prefix() == introducer() + decimal(
            color.fg_code() as nat,
        ) + terminator(),
{
    let codes = StyleView::plain().with_fg(color).codes();
    assert(codes == seq![decimal(color.fg_code() as nat)]);
}

/// A style that sets a palette background and nothing else has one code, the
/// colour's background code, and its prefix is ESC `[`, that code in
/// decimal, and `m`.
pub proof fn law_named_background_alone(color: Color)
    ensures
        StyleView::plain().with_bg(color).codes() == seq![decimal(color.bg_code() as nat)],
        StyleView::plain().with_bg(color).prefix() == introducer() + decimal(
            color.bg_code() as nat,
        ) + terminator(),
{
    let codes = StyleView::plain().with_bg(color).codes();
    assert(codes == seq![decimal(color.bg_code() as nat)]);
}

/// The code of a 24-bit colour is its lead, `38;2;` for the foreground and
/// `48;2;` for the background, and then `r;g;b` in decimal.
pub proof fn law_rgb_code_spelled_out(r: u8, g: u8, b: u8)
    ensures
        rgb_code(fg_rgb_lead(), RgbColor { r, g, b }) == seq!['3', '8', ';', '2', ';'] + decimal(
            r as nat,
        ) + seq![';'] + decimal(g as nat) + seq![';'] + decimal(b as nat),
        rgb_code(bg_rgb_lead(), RgbColor { r, g, b }) == seq!['4', '8', ';', '2', ';'] + decimal(
            r as nat,
        ) + seq![';'] + decimal(g as nat) + seq![';'] + decimal(b as nat),
{
}

/// Setting a 24-bit foreground on any style puts the code `38;2;r;g;b`
/// first; on a style that sets nothing else it is the only code, and the
/// prefix is ESC `[`, that code, and `m`.
pub proof fn law_rgb_foreground(style: StyleView, r: u8, g: u8, b: u8)
    ensures
        style.with_fg_rgb(r, g, b).codes().len() > 0,
        style.with_fg_rgb(r, g, b).codes()[0] == rgb_code(fg_rgb_lead(), RgbColor { r, g, b }),
        StyleView::plain().with_fg_rgb(r, g, b).codes() == seq![
            rgb_code(fg_rgb_lead(), RgbColor { r, g, b }),
        ],
        StyleView::plain().with_fg_rgb(r, g, b).prefix() == introducer() + rgb_code(
            fg_rgb_lead(),
            RgbColor { r, g, b },
        ) + terminator(),
{
    let code = rgb_code(fg_rgb_lead(), RgbColor { r, g, b });
    assert(style.with_fg_rgb(r, g, b).codes()[0] == code);
    assert(StyleView::plain().with_fg_rgb(r, g, b).codes() == seq![code]);
}

/// Setting a 24-bit background on any style puts the code `48;2;r;g;b`
/// right after the foreground's code, if there is one; on a style that sets
/// nothing else it is the only code, and the prefix is ESC `[`, that code,
/// and `m`.
pub proof fn law_rgb_background(style: StyleView, r: u8, g: u8, b: u8)
    ensures
        style.with_bg_rgb(r, g, b).codes().len() > fg_codes(style.fg).len(),
        style.with_bg_rgb(r, g, b).codes()[fg_codes(style.fg).len() as int] == rgb_code(
            bg_rgb_lead(),
            RgbColor { r, g, b },
        ),
        StyleView::plain().with_bg_rgb(r, g, b).codes() == seq![
            rgb_code(bg_rgb_lead(), RgbColor { r, g, b }),
        ],
        StyleView::plain().with_bg_rgb(r, g, b).prefix() == introducer() + rgb_code(
            bg_rgb_lead(),
            RgbColor { r, g, b },
        ) + terminator(),
{
    let code = rgb_code(bg_rgb_lead(), RgbColor { r, g, b });
    assert(StyleView::plain().with_bg_rgb(r, g, b).codes() == seq![code]);
}

/// The foreground set last wins: a palette colour and a 24-bit colour
/// replace each other, in either order, and only the code of the later one
/// is written.
pub proof fn law_last_foreground_wins(style: StyleView, color: Color, r: u8, g: u8, b: u8)
    ensures
        style.with_fg(color).with_fg_rgb(r, g, b) == style.with_fg_rgb(r, g, b),
        style.with_fg_rgb(r, g, b).with_fg(color) == style.with_fg(color),
        StyleView::plain().with_fg(color).with_fg_rgb(r, g, b).codes() == seq![
            rgb_code(fg_rgb_lead(), RgbColor { r, g, b }),
        ],
        StyleView::plain().with_fg_rgb(r, g, b).with_fg(color).codes() == seq![
            decimal(color.fg_code() as nat),
        ],
{
    law_named_foreground_alone(color);
    law_rgb_foreground(StyleView::plain(), r, g, b);
}

/// The background set last wins: a palette colour and a 24-bit colour
/// replace each other, in either order, and only the code of the later one
/// is written.
pub proof fn law_last_background_wins(style: StyleView, color: Color, r: u8, g: u8, b: u8)
    ensures
        style.with_bg(color).with_bg_rgb(r, g, b) == style.with_bg_rgb(r, g, b),
        style.with_bg_rgb(r, g, b).with_bg(color) == style.with_bg(color),
        StyleView::plain().with_bg(color).with_bg_rgb(r, g, b).codes() == seq![
            rgb_code(bg_rgb_lead(), RgbColor { r, g, b }),
        ],
        StyleView::plain().with_bg_rgb(r, g, b).with_bg(color).codes() == seq![
            decimal(color.bg_code() as nat),
        ],
{
    law_named_background_alone(color);
    law_rgb_background(StyleView::plain(), r, g, b);
}

/// A style that sets nothing leaves every text as it is: no escape sequence
/// before it and none after it.
pub proof fn law_plain_style_keeps_text(text: Seq<char>)
    ensures
        StyleView::plain().prefix() == Seq::<char>::empty(),
        StyleView::plain().render(text) == text,
        StyleView::plain().paint(text).rendered() == text,
{
    assert(StyleView::plain().codes() == Seq::<Seq<char>>::empty());
}

/// The prefix is empty for the style that sets nothing and for no other;
/// every other style has the attribute sequence of its codes as prefix, and
/// renders a text as that prefix, the text, and the reset sequence.
pub proof fn law_escapes_iff_styled(style: StyleView, text: Seq<char>)
    ensures
        style.prefix().len() == 0 <==> style == StyleView::plain(),
        style != StyleView::plain() ==> style.prefix() == attribute_sequence(style.codes()),
        style != StyleView::plain() ==> style.render(text) == style.prefix() + text + reset(),
{
    if style == StyleView::plain() {
        law_plain_style_keeps_text(text);
    } else {
        assert(style.codes().len() > 0);
        assert(style.prefix().len() >= 3);
    }
}

/// What a setter of a style acts on.
pub enum Attribute {
    Foreground,
    Background,
    Bold,
    Italic,
    Underline,
}

/// One call in a chain of setters, with its arguments.
pub enum Setter {
    Fg(Color),
    FgRgb(u8, u8, u8),
    Bg(Color),
    BgRgb(u8, u8, u8),
    Bold,
    Italic,
    Underline,
}

impl Setter {
    /// The attribute that the setter acts on.
    pub open spec fn attribute(self) -> Attribute {
        match self {
            Setter::Fg(_) | Setter::FgRgb(_, _, _) => Attribute::Foreground,
            Setter::Bg(_) | Setter::BgRgb(_, _, _) => Attribute::Background,
            Setter::Bold => Attribute::Bold,
            Setter::Italic => Attribute::Italic,
            Setter::Underline => Attribute::Underline,
        }
    }

    /// The style after the call.
    pub open spec fn apply(self, style: StyleView) -> StyleView {
        match self {
            Setter::Fg(color) => style.with_fg(color),
            Setter::FgRgb(r, g, b) => style.with_fg_rgb(r, g, b),
            Setter::Bg(color) => style.with_bg(color),
            Setter::BgRgb(r, g, b) => style.with_bg_rgb(r, g, b),
            Setter::Bold => style.with_bold(),
            Setter::Italic => style.with_italic(),
            Setter::Underline => style.with_underline(),
        }
    }
}

/// The order of two setter calls matters only where they act on the same
/// attribute: calls on different attributes give the same style in either
/// order, and of two calls on one attribute the later alone counts.
pub proof fn law_call_order(style: StyleView, first: Setter, second: Setter)
    ensures
        first.attribute() != second.attribute() ==> second.apply(first.apply(style))
            == first.apply(second.apply(style)),
        first.attribute() == second.attribute() ==> second.apply(first.apply(style))
            == second.apply(style),
{
}

/// Rendering depends on the text and the style alone: values that hold the
/// same text in the same style render to the same characters, so rendering
/// one value again gives the same output.
pub proof fn law_rendering_is_repeatable(first: ColoredString, second: ColoredString)
    requires
        first@ == second@,
    ensures
        first@.rendered() == second@.rendered(),
{
}

} // verus!
