use stave::theme::{parse_color, terminal_supports_color, theme_colors, Color, Palette, StyleSpec, Theme, ThemeStrings};

fn none() -> ThemeStrings {
    ThemeStrings {
        header: None,
        selection_bg: None,
        selection_fg: None,
        sidebar_active: None,
        sidebar_inactive: None,
        accent: None,
    }
}

#[test]
fn default_palette_colors() {
    let p = Palette::default();
    assert_eq!(p.header, Color::Rgb(242, 213, 207));
    assert_eq!(p.accent, Color::Rgb(202, 158, 230));
    assert_eq!(p.sidebar_active, Color::Rgb(252, 211, 77));
    assert_eq!(p.selection_bg, Color::Rgb(129, 200, 190));
    assert_eq!(p.selection_fg, Color::Rgb(48, 52, 70));
    assert_eq!(p.sidebar_inactive, Color::Rgb(165, 173, 206));
}

#[test]
fn first_readable_theme_file_wins() {
    let a = ThemeStrings {
        header: Some(String::from("red")),
        accent: Some(String::from("42")),
        selection_bg: Some(String::from("not a color")),
        ..none()
    };
    let b = ThemeStrings {
        header: Some(String::from("blue")),
        selection_bg: Some(String::from("black")),
        ..none()
    };
    let t = Theme::load(true, vec![None, Some(a), Some(b)]);
    assert!(t.colors_enabled);
    assert_eq!(t.palette.header, Color::Red);
    assert_eq!(t.palette.accent, Color::Indexed(42));
    assert_eq!(t.palette.selection_bg, Palette::default().selection_bg);
    assert_eq!(t.palette.sidebar_active, Palette::default().sidebar_active);
}

#[test]
fn no_theme_file_keeps_defaults() {
    let t = Theme::load(false, vec![None, None]);
    assert_eq!(t.palette, Palette::default());
    assert!(!t.colors_enabled);
    assert_eq!(Theme::load(true, vec![]).palette, Palette::default());
}

#[test]
fn styles_with_colors() {
    let t = Theme { palette: Palette::default(), colors_enabled: true };
    let p = t.palette;
    assert_eq!(t.header_style(), StyleSpec { fg: Some(p.header), bg: None, bold: true, reversed: false });
    assert_eq!(
        t.selection_style(),
        StyleSpec { fg: Some(p.selection_fg), bg: Some(p.selection_bg), bold: true, reversed: false }
    );
    assert_eq!(t.sidebar_style(true), StyleSpec { fg: Some(p.sidebar_active), bg: None, bold: true, reversed: false });
    assert_eq!(t.sidebar_style(false), StyleSpec { fg: Some(p.sidebar_inactive), bg: None, bold: false, reversed: false });
    assert_eq!(t.accent_style(), StyleSpec { fg: Some(p.accent), bg: None, bold: false, reversed: false });
}

#[test]
fn styles_without_colors_set_no_color() {
    let t = Theme { palette: Palette::default(), colors_enabled: false };
    let plain = StyleSpec { fg: None, bg: None, bold: false, reversed: false };
    assert_eq!(t.header_style(), StyleSpec { bold: true, ..plain });
    assert_eq!(t.selection_style(), StyleSpec { reversed: true, ..plain });
    assert_eq!(t.sidebar_style(true), plain);
    assert_eq!(t.sidebar_style(false), plain);
    assert_eq!(t.accent_style(), plain);
}

#[test]
fn color_support_from_environment() {
    assert!(!terminal_supports_color(true, Some("xterm-256color"), Some("truecolor")));
    assert!(!terminal_supports_color(false, Some("dumb"), Some("truecolor")));
    assert!(terminal_supports_color(false, None, Some("truecolor")));
    assert!(terminal_supports_color(false, Some("vt100"), Some("24bit")));
    assert!(!terminal_supports_color(false, Some("vt100"), Some("")));
    assert!(!terminal_supports_color(false, Some("vt100"), None));
    assert!(!terminal_supports_color(false, None, None));
    for term in ["xterm", "screen-256color", "tmux-256color", "xterm-kitty", "wezterm", "alacritty", "iterm2", "rxvt-unicode-256color"] {
        assert!(terminal_supports_color(false, Some(term), None), "{}", term);
    }
    assert!(!terminal_supports_color(false, Some("dumber"), None));
    assert!(!terminal_supports_color(false, Some("linux"), None));
}

#[test]
fn color_names_parse_as_ratatui_reads_them() {
    assert_eq!(parse_color("red"), Some(Color::Red));
    assert_eq!(parse_color("Light Blue"), Some(Color::LightBlue));
    assert_eq!(parse_color("bright-black"), Some(Color::DarkGray));
    assert_eq!(parse_color("grey"), Some(Color::Gray));
    assert_eq!(parse_color("#0A0b0C"), Some(Color::Rgb(10, 11, 12)));
    assert_eq!(parse_color("200"), Some(Color::Indexed(200)));
    assert_eq!(parse_color("reset"), Some(Color::Reset));
    assert_eq!(parse_color("nope"), None);
    assert_eq!(parse_color("#12345"), None);
}

#[test]
fn theme_strings_become_colors() {
    let c = theme_colors(&ThemeStrings {
        header: Some(String::from("white")),
        accent: Some(String::from("???")),
        ..none()
    });
    assert_eq!(c.header, Some(Color::White));
    assert_eq!(c.accent, None);
    assert_eq!(c.selection_fg, None);
}
