//! Colors and the styles that the interface draws with.

use ratatui::style::Color as R;
use std::str::FromStr;
use vstd::prelude::*;

use crate::text::{chars_eq, chars_of, contains_chars, has_substring};

verus! {

/// A terminal color, with the variants of ratatui's `Color`.
#[derive(Debug, Clone, Copy, PartialEq, Eq, Structural)]
pub enum Color {
    Reset,
    Black,
    Red,
    Green,
    Yellow,
    Blue,
    Magenta,
    Cyan,
    Gray,
    DarkGray,
    LightRed,
    LightGreen,
    LightYellow,
    LightBlue,
    LightMagenta,
    LightCyan,
    White,
    Rgb(u8, u8, u8),
    Indexed(u8),
}

/// How a piece of text is drawn: colors where they are set, and whether it is
/// bold or reversed.
#[derive(Debug, Clone, Copy, PartialEq, Eq, Structural)]
pub struct StyleSpec {
    pub fg: Option<Color>,
    pub bg: Option<Color>,
    pub bold: bool,
    pub reversed: bool,
}

/// The colors of the interface.
#[derive(Debug, Clone, Copy, PartialEq, Eq, Structural)]
pub struct Palette {
    pub header: Color,
    pub selection_bg: Color,
    pub selection_fg: Color,
    pub sidebar_active: Color,
    pub sidebar_inactive: Color,
    pub accent: Color,
}

/// The colors used when no theme file sets them.
pub open spec fn default_palette() -> Palette {
    Palette {
        header: Color::Rgb(242, 213, 207),
        accent: Color::Rgb(202, 158, 230),
        sidebar_active: Color::Rgb(252, 211, 77),
        selection_bg: Color::Rgb(129, 200, 190),
        selection_fg: Color::Rgb(48, 52, 70),
        sidebar_inactive: Color::Rgb(165, 173, 206),
    }
}

impl Default for Palette {
    fn default() -> (p: Palette)
        ensures
            p == default_palette(),
    {
        Palette {
            header: Color::Rgb(242, 213, 207),
            accent: Color::Rgb(202, 158, 230),
            sidebar_active: Color::Rgb(252, 211, 77),
            selection_bg: Color::Rgb(129, 200, 190),
            selection_fg: Color::Rgb(48, 52, 70),
            sidebar_inactive: Color::Rgb(165, 173, 206),
        }
    }
}

/// The colors that a theme file sets; a color that is missing, or that does
/// not parse, is `None`.
#[derive(Debug, Clone, Copy, PartialEq, Eq, Structural)]
pub struct ThemeColors {
    pub header: Option<Color>,
    pub selection_bg: Option<Color>,
    pub selection_fg: Option<Color>,
    pub sidebar_active: Option<Color>,
    pub sidebar_inactive: Option<Color>,
    pub accent: Option<Color>,
}

/// `c` where it is set, else `d`.
pub open spec fn color_or(c: Option<Color>, d: Color) -> Color {
    match c {
        Some(x) => x,
        None => d,
    }
}

/// `p` with the colors that `t` sets put in.
pub open spec fn overridden(p: Palette, t: ThemeColors) -> Palette {
    Palette {
        header: color_or(t.header, p.header),
        selection_bg: color_or(t.selection_bg, p.selection_bg),
        selection_fg: color_or(t.selection_fg, p.selection_fg),
        sidebar_active: color_or(t.sidebar_active, p.sidebar_active),
        sidebar_inactive: color_or(t.sidebar_inactive, p.sidebar_inactive),
        accent: color_or(t.accent, p.accent),
    }
}

/// The color strings that a theme file sets, as read from it.
#[derive(Debug)]
pub struct ThemeStrings {
    pub header: Option<String>,
    pub selection_bg: Option<String>,
    pub selection_fg: Option<String>,
    pub sidebar_active: Option<String>,
    pub sidebar_inactive: Option<String>,
    pub accent: Option<String>,
}

/// What ratatui's `Color::from_str` makes of the characters `s`: the color,
/// or `None` where it reports an error.
pub uninterp spec fn parsed_color(s: Seq<char>) -> Option<Color>;

/// Calls ratatui's `Color::from_str`, mapping each of its variants to the
/// same variant here and its error to `None`. Its parser (names in any case,
/// with spaces, dashes and underscores dropped, indexes and `#rrggbb`) takes
/// more than a few lines to state, so the result is only named:
/// `parsed_color` of the argument's characters.
#[verifier::external_body]
pub fn parse_color(s: &str) -> (r: Option<Color>)
    ensures
        r == parsed_color(s@),
{
    let c = R::from_str(s).ok()?;
    Some(match c {
        R::Reset => Color::Reset, R::Black => Color::Black, R::Red => Color::Red,
        R::Green => Color::Green, R::Yellow => Color::Yellow, R::Blue => Color::Blue,
        R::Magenta => Color::Magenta, R::Cyan => Color::Cyan, R::Gray => Color::Gray,
        R::DarkGray => Color::DarkGray, R::LightRed => Color::LightRed,
        R::LightGreen => Color::LightGreen, R::LightYellow => Color::LightYellow,
        R::LightBlue => Color::LightBlue, R::LightMagenta => Color::LightMagenta,
        R::LightCyan => Color::LightCyan, R::White => Color::White,
        R::Rgb(r, g, b) => Color::Rgb(r, g, b), R::Indexed(i) => Color::Indexed(i),
    })
}

/// The color that an optional string names, if it is given and parses.
pub open spec fn color_named(o: Option<String>) -> Option<Color> {
    match o {
        Some(s) => parsed_color(s@),
        None => None,
    }
}

/// The colors that a theme file's strings name.
pub open spec fn colors_of(c: ThemeStrings) -> ThemeColors {
    ThemeColors {
        header: color_named(c.header),
        selection_bg: color_named(c.selection_bg),
        selection_fg: color_named(c.selection_fg),
        sidebar_active: color_named(c.sidebar_active),
        sidebar_inactive: color_named(c.sidebar_inactive),
        accent: color_named(c.accent),
    }
}

fn parse_opt(o: &Option<String>) -> (r: Option<Color>)
    ensures
        r == color_named(*o),
{
    match o {
        Some(s) => parse_color(s.as_str()),
        None => None,
    }
}

/// The colors that a theme file's strings name; a string that does not parse
/// leaves its color unset.
pub fn theme_colors(c: &ThemeStrings) -> (t: ThemeColors)
    ensures
        t == colors_of(*c),
{
    ThemeColors {
        header: parse_opt(&c.header),
        selection_bg: parse_opt(&c.selection_bg),
        selection_fg: parse_opt(&c.selection_fg),
        sidebar_active: parse_opt(&c.sidebar_active),
        sidebar_inactive: parse_opt(&c.sidebar_inactive),
        accent: parse_opt(&c.accent),
    }
}

/// The first theme file that could be read, if any.
pub open spec fn first_loaded(configs: Seq<Option<ThemeStrings>>) -> Option<ThemeStrings>
    decreases configs.len(),
{
    if configs.len() == 0 {
        None
    } else if configs[0] is Some {
        configs[0]
    } else {
        first_loaded(configs.drop_first())
    }
}

/// The palette that the theme files give: the defaults, with the colors named
/// by the first file that could be read put in.
pub open spec fn loaded_palette(configs: Seq<Option<ThemeStrings>>) -> Palette {
    match first_loaded(configs) {
        Some(t) => overridden(default_palette(), colors_of(t)),
        None => default_palette(),
    }
}

fn pick(c: Option<Color>, d: Color) -> (r: Color)
    ensures
        r == color_or(c, d),
{
    match c {
        Some(x) => x,
        None => d,
    }
}

/// The colors of the interface, and whether the terminal shows colors.
#[derive(Debug, Clone, Copy, PartialEq, Eq, Structural)]
pub struct Theme {
    pub palette: Palette,
    pub colors_enabled: bool,
}

/// The plain style: nothing set.
pub open spec fn plain_style() -> StyleSpec {
    StyleSpec { fg: None, bg: None, bold: false, reversed: false }
}

/// The style of the header.
pub open spec fn header_style_of(t: Theme) -> StyleSpec {
    if !t.colors_enabled {
        StyleSpec { bold: true, ..plain_style() }
    } else {
        StyleSpec { fg: Some(t.palette.header), bold: true, ..plain_style() }
    }
}

/// The style of the selected row.
pub open spec fn selection_style_of(t: Theme) -> StyleSpec {
    if !t.colors_enabled {
        StyleSpec { reversed: true, ..plain_style() }
    } else {
        StyleSpec {
            fg: Some(t.palette.selection_fg),
            bg: Some(t.palette.selection_bg),
            bold: true,
            reversed: false,
        }
    }
}

/// The style of a sidebar entry.
pub open spec fn sidebar_style_of(t: Theme, active: bool) -> StyleSpec {
    if !t.colors_enabled {
        plain_style()
    } else if active {
        StyleSpec { fg: Some(t.palette.sidebar_active), bold: true, ..plain_style() }
    } else {
        StyleSpec { fg: Some(t.palette.sidebar_inactive), ..plain_style() }
    }
}

/// The style of the search box and the help line.
pub open spec fn accent_style_of(t: Theme) -> StyleSpec {
    if !t.colors_enabled {
        plain_style()
    } else {
        StyleSpec { fg: Some(t.palette.accent), ..plain_style() }
    }
}

/// Without colors, no style sets a color.
pub proof fn lemma_no_colors_without_color_support(t: Theme, active: bool)
    requires
        !t.colors_enabled,
    ensures
        header_style_of(t).fg is None && header_style_of(t).bg is None,
        selection_style_of(t).fg is None && selection_style_of(t).bg is None,
        sidebar_style_of(t, active).fg is None && sidebar_style_of(t, active).bg is None,
        accent_style_of(t).fg is None && accent_style_of(t).bg is None,
{
}

impl Theme {
    /// The theme given by the theme files, in the order they are looked for
    /// (`configs[i]` is `None` when file `i` could not be read or parsed):
    /// the first one that was read sets the colors it names over the
    /// defaults; a color string that does not parse is ignored.
    pub fn load(colors_enabled: bool, configs: Vec<Option<ThemeStrings>>) -> (t: Theme)
        ensures
            t.palette == loaded_palette(configs@),
            t.colors_enabled == colors_enabled,
    {
        let mut palette = Palette::default();
        let mut loaded = false;
        let mut i: usize = 0;
        assert(configs@.skip(0) =~= configs@);
        while i < configs.len()
            invariant
                i <= configs@.len(),
                !loaded ==> first_loaded(configs@) == first_loaded(configs@.skip(i as int)),
                !loaded ==> palette == default_palette(),
                loaded ==> palette == loaded_palette(configs@),
            decreases configs.len() - i,
        {
            assert(configs@.skip(i as int).drop_first() =~= configs@.skip(i + 1));
            if !loaded {
                if let Some(strings) = &configs[i] {
                    let c = theme_colors(strings);
                    palette = Palette {
                        header: pick(c.header, palette.header),
                        selection_bg: pick(c.selection_bg, palette.selection_bg),
                        selection_fg: pick(c.selection_fg, palette.selection_fg),
                        sidebar_active: pick(c.sidebar_active, palette.sidebar_active),
                        sidebar_inactive: pick(c.sidebar_inactive, palette.sidebar_inactive),
                        accent: pick(c.accent, palette.accent),
                    };
                    loaded = true;
                }
            }
            i += 1;
        }
        Theme { palette, colors_enabled }
    }

    /// The style of the header.
    pub fn header_style(self) -> (s: StyleSpec)
        ensures
            s == header_style_of(self),
    {
        if !self.colors_enabled {
            return StyleSpec { fg: None, bg: None, bold: true, reversed: false };
        }
        StyleSpec { fg: Some(self.palette.header), bg: None, bold: true, reversed: false }
    }

    /// The style of the selected row.
    pub fn selection_style(self) -> (s: StyleSpec)
        ensures
            s == selection_style_of(self),
    {
        if !self.colors_enabled {
            return StyleSpec { fg: None, bg: None, bold: false, reversed: true };
        }
        StyleSpec {
            fg: Some(self.palette.selection_fg),
            bg: Some(self.palette.selection_bg),
            bold: true,
            reversed: false,
        }
    }

    /// The style of a sidebar entry, marked or not.
    pub fn sidebar_style(self, active: bool) -> (s: StyleSpec)
        ensures
            s == sidebar_style_of(self, active),
    {
        if !self.colors_enabled {
            return StyleSpec { fg: None, bg: None, bold: false, reversed: false };
        }
        if active {
            StyleSpec { fg: Some(self.palette.sidebar_active), bg: None, bold: true, reversed: false }
        } else {
            StyleSpec { fg: Some(self.palette.sidebar_inactive), bg: None, bold: false, reversed: false }
        }
    }

    /// The style of the search box and the help line.
    pub fn accent_style(self) -> (s: StyleSpec)
        ensures
            s == accent_style_of(self),
    {
        if !self.colors_enabled {
            return StyleSpec { fg: None, bg: None, bold: false, reversed: false };
        }
        StyleSpec { fg: Some(self.palette.accent), bg: None, bold: false, reversed: false }
    }
}

/// `TERM` names a terminal known to show colors.
pub open spec fn known_color_term(term: Seq<char>) -> bool {
    ||| has_substring(term, "color"@)
    ||| has_substring(term, "xterm"@)
    ||| has_substring(term, "screen"@)
    ||| has_substring(term, "tmux"@)
    ||| has_substring(term, "kitty"@)
    ||| has_substring(term, "wezterm"@)
    ||| has_substring(term, "alacritty"@)
    ||| has_substring(term, "iterm"@)
}

/// Whether colors are used, given whether `NO_COLOR` is set and the values of
/// `TERM` and `COLORTERM` (`None` where unset or not Unicode).
pub open spec fn supports_color(no_color: bool, term: Option<Seq<char>>, colorterm: Option<Seq<char>>) -> bool {
    if no_color {
        false
    } else if term == Some("dumb"@) {
        false
    } else if colorterm is Some && colorterm->0.len() > 0 {
        true
    } else {
        match term {
            Some(t) => known_color_term(t),
            None => false,
        }
    }
}

/// The characters of an optional string.
pub open spec fn opt_view(o: Option<&str>) -> Option<Seq<char>> {
    match o {
        Some(s) => Some(s@),
        None => None,
    }
}

fn str_contains(s: &Vec<char>, pattern: &str) -> (r: bool)
    ensures
        r == has_substring(s@, pattern@),
{
    let p = chars_of(pattern);
    contains_chars(s, &p)
}

/// Whether the terminal shows colors: not when `NO_COLOR` is set or `TERM` is
/// `dumb`; yes when `COLORTERM` is set to something; otherwise when `TERM`
/// names a terminal known to show them.
pub fn terminal_supports_color(no_color: bool, term: Option<&str>, colorterm: Option<&str>) -> (r: bool)
    ensures
        r == supports_color(no_color, opt_view(term), opt_view(colorterm)),
{
    if no_color {
        return false;
    }
    if let Some(t) = term {
        if chars_eq(&chars_of(t), &chars_of("dumb")) {
            return false;
        }
    }
    if let Some(c) = colorterm {
        if !c.is_empty() {
            return true;
        }
    }
    match term {
        Some(t) => {
            let tc = chars_of(t);
            str_contains(&tc, "color") || str_contains(&tc, "xterm") || str_contains(&tc, "screen")
                || str_contains(&tc, "tmux") || str_contains(&tc, "kitty") || str_contains(&tc, "wezterm")
                || str_contains(&tc, "alacritty") || str_contains(&tc, "iterm")
        },
        None => false,
    }
}

} // verus!
