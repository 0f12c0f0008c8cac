use ansi_style::decimal::decimal_string;
use ansi_style::escape::{join_codes, rgb_code_string};
use ansi_style::{
    black, blue, cyan, green, magenta, red, white, yellow, Color, Colorize, RgbColor, Style,
};

#[test]
fn each_shorthand_sets_its_foreground() {
    assert_eq!(black("x").to_string(), "\x1b[30mx\x1b[0m");
    assert_eq!(red("x").to_string(), "\x1b[31mx\x1b[0m");
    assert_eq!(green("x").to_string(), "\x1b[32mx\x1b[0m");
    assert_eq!(yellow("x").to_string(), "\x1b[33mx\x1b[0m");
    assert_eq!(blue("x").to_string(), "\x1b[34mx\x1b[0m");
    assert_eq!(magenta("x").to_string(), "\x1b[35mx\x1b[0m");
    assert_eq!(cyan("x").to_string(), "\x1b[36mx\x1b[0m");
    assert_eq!(white("x").to_string(), "\x1b[37mx\x1b[0m");
}

#[test]
fn each_method_sets_its_attribute() {
    assert_eq!("x".black().to_string(), "\x1b[30mx\x1b[0m");
    assert_eq!("x".red().to_string(), "\x1b[31mx\x1b[0m");
    assert_eq!("x".green().to_string(), "\x1b[32mx\x1b[0m");
    assert_eq!("x".yellow().to_string(), "\x1b[33mx\x1b[0m");
    assert_eq!("x".blue().to_string(), "\x1b[34mx\x1b[0m");
    assert_eq!("x".magenta().to_string(), "\x1b[35mx\x1b[0m");
    assert_eq!("x".cyan().to_string(), "\x1b[36mx\x1b[0m");
    assert_eq!("x".white().to_string(), "\x1b[37mx\x1b[0m");
    assert_eq!("x".bold().to_string(), "\x1b[1mx\x1b[0m");
    assert_eq!("x".italic().to_string(), "\x1b[3mx\x1b[0m");
    assert_eq!("x".underline().to_string(), "\x1b[4mx\x1b[0m");
    assert_eq!("x".color(Color::BrightRed).to_string(), "\x1b[91mx\x1b[0m");
    assert_eq!("x".bg_color(Color::BrightBlue).to_string(), "\x1b[104mx\x1b[0m");
    assert_eq!("x".rgb(1, 2, 3).to_string(), "\x1b[38;2;1;2;3mx\x1b[0m");
    assert_eq!("x".on_rgb(1, 2, 3).to_string(), "\x1b[48;2;1;2;3mx\x1b[0m");
}

#[test]
fn methods_work_on_owned_strings() {
    let owned = String::from("owned");
    assert_eq!(owned.green().to_string(), "\x1b[32mowned\x1b[0m");
    assert_eq!(owned.as_text(), "owned");
    assert_eq!("borrowed".as_text(), "borrowed");
}

#[test]
fn painting_painted_text_starts_from_the_bare_text() {
    let once = red("twice");
    let twice = once.bold();
    assert_eq!(twice.text, "twice");
    assert_eq!(twice.to_string(), "\x1b[1mtwice\x1b[0m");
    assert_eq!(once.as_text(), "twice");
}

#[test]
fn painted_text_gives_its_bare_text() {
    let painted = Style::new().underline().paint("bare");
    let text: &str = painted.as_ref();
    assert_eq!(text, "bare");
    assert_eq!(painted.text, "bare");
}

#[test]
fn rgb_color_holds_its_channels() {
    let color = RgbColor::new(1, 2, 3);
    assert_eq!(color.r, 1);
    assert_eq!(color.g, 2);
    assert_eq!(color.b, 3);
    assert_eq!(color, RgbColor { r: 1, g: 2, b: 3 });
    assert_ne!(color, RgbColor::new(3, 2, 1));
}

#[test]
fn decimal_notation_of_bytes() {
    assert_eq!(decimal_string(0), "0");
    assert_eq!(decimal_string(9), "9");
    assert_eq!(decimal_string(10), "10");
    assert_eq!(decimal_string(99), "99");
    assert_eq!(decimal_string(100), "100");
    assert_eq!(decimal_string(101), "101");
    assert_eq!(decimal_string(110), "110");
    assert_eq!(decimal_string(200), "200");
    assert_eq!(decimal_string(255), "255");
}

#[test]
fn decimal_notation_agrees_with_the_standard_library() {
    let mut n: u8 = 0;
    loop {
        assert_eq!(decimal_string(n), n.to_string());
        if n == 255 {
            break;
        }
        n += 1;
    }
}

#[test]
fn rgb_code_follows_its_lead() {
    assert_eq!(rgb_code_string("38;2;", RgbColor::new(255, 100, 50)), "38;2;255;100;50");
    assert_eq!(rgb_code_string("48;2;", RgbColor::new(0, 7, 10)), "48;2;0;7;10");
}

#[test]
fn join_puts_semicolons_between_codes() {
    let none: Vec<String> = Vec::new();
    assert_eq!(join_codes(&none), "");
    let one: Vec<String> = vec![String::from("31")];
    assert_eq!(join_codes(&one), "31");
    let three: Vec<String> = vec![String::from("32"), String::from("40"), String::from("1")];
    assert_eq!(join_codes(&three), "32;40;1");
    let with_empty: Vec<String> = vec![String::new(), String::from("1"), String::new()];
    assert_eq!(join_codes(&with_empty), ";1;");
}
