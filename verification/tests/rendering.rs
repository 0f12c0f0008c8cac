use ansi_style::{on_rgb, red, rgb, Color, Colorize, Style};

#[test]
fn test_red_text() {
    let colored = red("This is red text");
    assert_eq!(colored.to_string(), "\x1b[31mThis is red text\x1b[0m");
}

#[test]
fn test_colorize_trait() {
    let colored = "Blue text".blue();
    assert_eq!(colored.to_string(), "\x1b[34mBlue text\x1b[0m");
}

#[test]
fn test_combined_styles() {
    let styled = Style::new()
        .fg(Color::Green)
        .bg(Color::Black)
        .bold()
        .paint("Bold green text on black background");
    assert_eq!(
        styled.to_string(),
        "\x1b[32;40;1mBold green text on black background\x1b[0m"
    );
}

#[test]
fn test_rgb_color() {
    let colored = rgb(255, 100, 50, "RGB text");
    assert_eq!(colored.to_string(), "\x1b[38;2;255;100;50mRGB text\x1b[0m");
}

#[test]
fn test_rgb_trait_method() {
    let colored = "RGB trait".rgb(50, 100, 255);
    assert_eq!(colored.to_string(), "\x1b[38;2;50;100;255mRGB trait\x1b[0m");
}

#[test]
fn test_bg_rgb_color() {
    let colored = on_rgb(50, 100, 255, "Background RGB");
    assert_eq!(colored.to_string(), "\x1b[48;2;50;100;255mBackground RGB\x1b[0m");
}

#[test]
fn test_complex_rgb_styling() {
    let styled = Style::new()
        .fg_rgb(255, 50, 50)
        .bg_rgb(20, 20, 50)
        .bold()
        .paint("Complex RGB styling");
    assert_eq!(
        styled.to_string(),
        "\x1b[38;2;255;50;50;48;2;20;20;50;1mComplex RGB styling\x1b[0m"
    );
}
