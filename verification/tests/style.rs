use greetui::style::{contrast_fg, parse_color, Color, Component, Style, Theme, Themed};
use greetui::terminal::{bg_color_sequence, reset_bg_color_sequence};

#[test]
fn parse_named_colors() {
    assert_eq!(parse_color("black"), Some(Color::Black));
    assert_eq!(parse_color("red"), Some(Color::Red));
    assert_eq!(parse_color("green"), Some(Color::Green));
    assert_eq!(parse_color("yellow"), Some(Color::Yellow));
    assert_eq!(parse_color("blue"), Some(Color::Blue));
    assert_eq!(parse_color("magenta"), Some(Color::Magenta));
    assert_eq!(parse_color("cyan"), Some(Color::Cyan));
    assert_eq!(parse_color("white"), Some(Color::White));
}

#[test]
fn parse_hex_colors() {
    assert_eq!(parse_color("#ff8000"), Some(Color::Rgb(255, 128, 0)));
    assert_eq!(parse_color("#0A0b0C"), Some(Color::Rgb(10, 11, 12)));
    assert_eq!(parse_color("#zz0010"), Some(Color::Rgb(0, 0, 16)));
    assert_eq!(parse_color("#+f+f+f"), Some(Color::Rgb(15, 15, 15)));
}

#[test]
fn parse_indexed_colors() {
    assert_eq!(parse_color("0"), Some(Color::Indexed(0)));
    assert_eq!(parse_color("42"), Some(Color::Indexed(42)));
    assert_eq!(parse_color("255"), Some(Color::Indexed(255)));
    assert_eq!(parse_color("+7"), Some(Color::Indexed(7)));
    assert_eq!(parse_color("256"), Some(Color::Indexed(0)));
    assert_eq!(parse_color("Black"), Some(Color::Indexed(0)));
    assert_eq!(parse_color(""), Some(Color::Indexed(0)));
    assert_eq!(parse_color("#12345"), Some(Color::Indexed(0)));
}

/// The brightness rule with floating-point weights, as the terminal
/// reading of a background was first described.
fn contrast_by_float(r: u8, g: u8, b: u8) -> Color {
    let brightness = (r as f64 * 0.299) + (g as f64 * 0.587) + (b as f64 * 0.114);
    if brightness > 128.0 {
        Color::Black
    } else {
        Color::White
    }
}

#[test]
fn contrast_matches_float_brightness_everywhere() {
    for r in 0..=255u8 {
        for g in 0..=255u8 {
            for b in 0..=255u8 {
                assert_eq!(contrast_fg(Color::Rgb(r, g, b)), contrast_by_float(r, g, b), "{r} {g} {b}");
            }
        }
    }
}

#[test]
fn contrast_of_named_and_indexed() {
    assert_eq!(contrast_fg(Color::Black), Color::White);
    assert_eq!(contrast_fg(Color::White), Color::Black);
    assert_eq!(contrast_fg(Color::LightCyan), Color::Black);
    assert_eq!(contrast_fg(Color::Blue), Color::White);
    assert_eq!(contrast_fg(Color::Indexed(7)), Color::White);
    assert_eq!(contrast_fg(Color::Indexed(8)), Color::Black);
    assert_eq!(contrast_fg(Color::Indexed(16)), Color::White);
    assert_eq!(contrast_fg(Color::Indexed(52)), Color::Black);
    assert_eq!(contrast_fg(Color::Indexed(100)), Color::White);
    assert_eq!(contrast_fg(Color::Indexed(200)), Color::White);
    assert_eq!(contrast_fg(Color::Indexed(232)), Color::White);
    assert_eq!(contrast_fg(Color::Indexed(243)), Color::White);
    assert_eq!(contrast_fg(Color::Indexed(244)), Color::White);
    assert_eq!(contrast_fg(Color::Indexed(245)), Color::Black);
    assert_eq!(contrast_fg(Color::Indexed(255)), Color::Black);
    assert_eq!(contrast_fg(Color::Rgb(255, 255, 255)), Color::Black);
    assert_eq!(contrast_fg(Color::Rgb(0, 0, 0)), Color::White);
}

#[test]
fn theme_parse_with_fallbacks() {
    let t = Theme::parse("container=black;text=red;border=#102030;action=blue;bogus;time=;nope=green");
    assert_eq!(t.container, Some((Component::Bg, Color::Black)));
    assert_eq!(t.text, Some((Component::Fg, Color::Red)));
    assert_eq!(t.time, Some((Component::Fg, Color::Red)));
    assert_eq!(t.greet, Some((Component::Fg, Color::Red)));
    assert_eq!(t.border, Some((Component::Fg, Color::Rgb(16, 32, 48))));
    assert_eq!(t.title, Some((Component::Fg, Color::Rgb(16, 32, 48))));
    assert_eq!(t.action, Some((Component::Fg, Color::Blue)));
    assert_eq!(t.button, Some((Component::Fg, Color::Blue)));
    assert_eq!(t.prompt, None);
    assert_eq!(t.input, None);
}

#[test]
fn theme_parse_reads_ratatui_names() {
    let t = Theme::parse("prompt=LightGreen;input=dark-gray;greet=7;text=white");
    assert_eq!(t.prompt, Some((Component::Fg, Color::LightGreen)));
    assert_eq!(t.input, Some((Component::Fg, Color::DarkGray)));
    assert_eq!(t.greet, Some((Component::Fg, Color::Indexed(7))));
    assert_eq!(t.time, Some((Component::Fg, Color::White)));
}

#[test]
fn theme_later_directive_wins() {
    let t = Theme::parse("text=red;text=green");
    assert_eq!(t.text, Some((Component::Fg, Color::Green)));
    let t = Theme::parse("");
    assert_eq!(t.text, None);
}

#[test]
fn theme_defaults_only_fill_gaps() {
    let mut t = Theme::parse("text=red;container=blue");
    t.set_container_bg(Color::Black);
    t.set_text_fg(Color::White);
    assert_eq!(t.container_bg(), Some(Color::Blue));
    assert_eq!(t.text, Some((Component::Fg, Color::Red)));
    assert_eq!(t.prompt, Some((Component::Fg, Color::White)));
    assert_eq!(t.container, Some((Component::Bg, Color::Blue)));

    let mut t = Theme::default();
    assert_eq!(t.container_bg(), None);
    t.set_container_bg(Color::Black);
    assert_eq!(t.container_bg(), Some(Color::Black));
}

#[test]
fn style_of_parts() {
    let t = Theme::parse("container=black;text=red");
    assert_eq!(t.of(&[Themed::Container]), Style { fg: None, bg: Some(Color::Black) });
    assert_eq!(t.of(&[Themed::Container, Themed::Text]), Style { fg: Some(Color::Red), bg: Some(Color::Black) });
    assert_eq!(t.of(&[Themed::Prompt]), Style { fg: None, bg: None });
    assert_eq!(t.of(&[]), Style { fg: None, bg: None });
}

#[test]
fn background_sequences() {
    assert_eq!(bg_color_sequence("black"), "\x1b[40m");
    assert_eq!(bg_color_sequence("white"), "\x1b[47m");
    assert_eq!(bg_color_sequence("cyan"), "\x1b[46m");
    assert_eq!(bg_color_sequence("#ff0a00"), "\x1b[48;2;255;10;0m");
    assert_eq!(bg_color_sequence("123"), "\x1b[48;5;123m");
    assert_eq!(bg_color_sequence("9"), "\x1b[48;5;9m");
    assert_eq!(bg_color_sequence("nonsense"), "\x1b[48;5;0m");
    assert_eq!(reset_bg_color_sequence(), "\x1b[49m");
}

#[test]
fn theme_parts_by_key() {
    let mut t = Theme::default();
    t.set_key("container", Color::Blue);
    t.set_key("border", Color::Red);
    t.set_key("nothing", Color::Green);
    assert_eq!(t.container, Some((Component::Bg, Color::Blue)));
    assert_eq!(t.border, Some((Component::Fg, Color::Red)));
    assert_eq!(t.title, None);
    t.fill_fallbacks();
    assert_eq!(t.title, Some((Component::Fg, Color::Red)));
    assert_eq!(t.time, None);
    t.set_key("text", Color::White);
    t.set_key("time", Color::Gray);
    t.fill_fallbacks();
    assert_eq!(t.time, Some((Component::Fg, Color::Gray)));
    assert_eq!(t.greet, Some((Component::Fg, Color::White)));
}

#[test]
fn grey_ramp_follows_brightness() {
    for n in 232..=255u8 {
        let level = 8 + 10 * (n - 232);
        assert_eq!(contrast_fg(Color::Indexed(n)), contrast_fg(Color::Rgb(level, level, level)), "{n}");
    }
}
