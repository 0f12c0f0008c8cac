//! ANSI terminal styling for text.
//!
//! A [`Style`] collects display attributes (foreground and background
//! colour, bold, italic, underline). Painting a piece of text with a style
//! gives a [`ColoredString`], which renders to the text wrapped in the SGR
//! escape sequences that switch the attributes on and off again.
//!
//! Every function carries a contract over a mathematical model of the
//! rendered characters, and the contracts are machine-checked.

pub mod color;
pub mod colored;
pub mod colorize;
pub mod decimal;
pub mod escape;
pub mod laws;
pub mod style;

pub use color::{Color, Coloring, RgbColor};
pub use colored::{ColoredString, ColoredStringView};
pub use colorize::{
    black, blue, cyan, green, magenta, on_rgb, red, rgb, white, yellow, Colorize,
};
pub use style::{Style, StyleView};
