//! Colours of the light and the dark theme.

use vstd::prelude::*;
use crate::text::string_of;

verus! {

/// The two themes.
#[derive(Debug, Clone, Copy, PartialEq, Eq, Structural, Hash)]
pub enum ThemeType {
    /// Dark text on light backgrounds.
    Light,
    /// Light text on dark backgrounds.
    Dark,
}

impl ThemeType {
    /// The name of the theme as it is stored.
    pub open spec fn name(self) -> Seq<char> {
        match self {
            ThemeType::Light => "light"@,
            ThemeType::Dark => "dark"@,
        }
    }

    /// The name of the theme as it is stored.
    pub fn to_string(&self) -> (r: String)
        ensures
            r@ == self.name(),
    {
        match self {
            ThemeType::Light => "light".to_owned(),
            ThemeType::Dark => "dark".to_owned(),
        }
    }
}

/// A colour of red, green and blue.
#[derive(Debug, Clone, Copy, PartialEq, Eq, Structural, Hash)]
pub struct Color {
    pub r: u8,
    pub g: u8,
    pub b: u8,
}

/// One hexadecimal digit, upper case.
pub open spec fn hex_digit(d: int) -> char
    recommends
        0 <= d < 16,
{
    if d < 10 {
        ((d + 48) as u8) as char
    } else {
        ((d + 55) as u8) as char
    }
}

/// The two hexadecimal digits of a byte.
pub open spec fn hex_pair(v: u8) -> Seq<char> {
    seq![hex_digit(v as int / 16), hex_digit(v as int % 16)]
}

/// A colour as `#RRGGBB`.
pub open spec fn hex_text(r: u8, g: u8, b: u8) -> Seq<char> {
    seq!['#'] + hex_pair(r) + hex_pair(g) + hex_pair(b)
}

fn hex_digit_of(d: u8) -> (c: char)
    requires
        d < 16,
    ensures
        c == hex_digit(d as int),
{
    if d < 10 {
        (d + 48) as char
    } else {
        (d + 55) as char
    }
}

/// Writes a colour as `#RRGGBB`.
pub fn hex_of(r: u8, g: u8, b: u8) -> (text: String)
    ensures
        text@ == hex_text(r, g, b),
{
    let mut v: Vec<char> = Vec::new();
    v.push('#');
    v.push(hex_digit_of(r / 16));
    v.push(hex_digit_of(r % 16));
    v.push(hex_digit_of(g / 16));
    v.push(hex_digit_of(g % 16));
    v.push(hex_digit_of(b / 16));
    v.push(hex_digit_of(b % 16));
    assert(v@ =~= hex_text(r, g, b));
    string_of(&v)
}

impl Color {
    /// The colour of the given components.
    pub fn from_rgb(r: u8, g: u8, b: u8) -> (c: Color)
        ensures
            c == (Color { r, g, b }),
    {
        Color { r, g, b }
    }

    /// The colour as `#RRGGBB`.
    pub fn to_hex(&self) -> (text: String)
        ensures
            text@ == hex_text(self.r, self.g, self.b),
    {
        hex_of(self.r, self.g, self.b)
    }
}

/// The colours of a theme.
#[derive(Debug, Clone, Copy, PartialEq, Eq, Structural)]
pub struct Palette {
    pub theme_type: ThemeType,
    pub background: Color,
    pub text_primary: Color,
    pub text_secondary: Color,
    pub panel: Color,
    pub button: Color,
    pub accent: Color,
    pub status_green: Color,
    pub status_blue: Color,
    pub status_red: Color,
    pub status_yellow: Color,
}

/// The palette of a theme.
pub open spec fn palette_of(theme_type: ThemeType) -> Palette {
    match theme_type {
        ThemeType::Light => Palette {
            theme_type: ThemeType::Light,
            background: Color { r: 255, g: 255, b: 255 },
            text_primary: Color { r: 0, g: 0, b: 0 },
            text_secondary: Color { r: 80, g: 80, b: 80 },
            panel: Color { r: 245, g: 245, b: 245 },
            button: Color { r: 0, g: 102, b: 204 },
            accent: Color { r: 255, g: 107, b: 53 },
            status_green: Color { r: 0, g: 128, b: 0 },
            status_blue: Color { r: 0, g: 0, b: 200 },
            status_red: Color { r: 200, g: 0, b: 0 },
            status_yellow: Color { r: 200, g: 160, b: 0 },
        },
        ThemeType::Dark => Palette {
            theme_type: ThemeType::Dark,
            background: Color { r: 30, g: 30, b: 30 },
            text_primary: Color { r: 255, g: 255, b: 255 },
            text_secondary: Color { r: 204, g: 204, b: 204 },
            panel: Color { r: 45, g: 45, b: 45 },
            button: Color { r: 77, g: 166, b: 255 },
            accent: Color { r: 255, g: 140, b: 66 },
            status_green: Color { r: 0, g: 255, b: 0 },
            status_blue: Color { r: 77, g: 166, b: 255 },
            status_red: Color { r: 255, g: 51, b: 51 },
            status_yellow: Color { r: 255, g: 221, b: 0 },
        },
    }
}

/// The background colour of the light theme.
pub fn light_background() -> (c: Color)
    ensures
        c == palette_of(ThemeType::Light).background,
{
    Color { r: 255, g: 255, b: 255 }
}

/// The text primary colour of the light theme.
pub fn light_text_primary() -> (c: Color)
    ensures
        c == palette_of(ThemeType::Light).text_primary,
{
    Color { r: 0, g: 0, b: 0 }
}

/// The text secondary colour of the light theme.
pub fn light_text_secondary() -> (c: Color)
    ensures
        c == palette_of(ThemeType::Light).text_secondary,
{
    Color { r: 80, g: 80, b: 80 }
}

/// The panel colour of the light theme.
pub fn light_panel() -> (c: Color)
    ensures
        c == palette_of(ThemeType::Light).panel,
{
    Color { r: 245, g: 245, b: 245 }
}

/// The button colour of the light theme.
pub fn light_button() -> (c: Color)
    ensures
        c == palette_of(ThemeType::Light).button,
{
    Color { r: 0, g: 102, b: 204 }
}

/// The accent colour of the light theme.
pub fn light_accent() -> (c: Color)
    ensures
        c == palette_of(ThemeType::Light).accent,
{
    Color { r: 255, g: 107, b: 53 }
}

/// The status green colour of the light theme.
pub fn light_status_green() -> (c: Color)
    ensures
        c == palette_of(ThemeType::Light).status_green,
{
    Color { r: 0, g: 128, b: 0 }
}

/// The status blue colour of the light theme.
pub fn light_status_blue() -> (c: Color)
    ensures
        c == palette_of(ThemeType::Light).status_blue,
{
    Color { r: 0, g: 0, b: 200 }
}

/// The status red colour of the light theme.
pub fn light_status_red() -> (c: Color)
    ensures
        c == palette_of(ThemeType::Light).status_red,
{
    Color { r: 200, g: 0, b: 0 }
}

/// The status yellow colour of the light theme.
pub fn light_status_yellow() -> (c: Color)
    ensures
        c == palette_of(ThemeType::Light).status_yellow,
{
    Color { r: 200, g: 160, b: 0 }
}

/// The background colour of the dark theme.
pub fn dark_background() -> (c: Color)
    ensures
        c == palette_of(ThemeType::Dark).background,
{
    Color { r: 30, g: 30, b: 30 }
}

/// The text primary colour of the dark theme.
pub fn dark_text_primary() -> (c: Color)
    ensures
        c == palette_of(ThemeType::Dark).text_primary,
{
    Color { r: 255, g: 255, b: 255 }
}

/// The text secondary colour of the dark theme.
pub fn dark_text_secondary() -> (c: Color)
    ensures
        c == palette_of(ThemeType::Dark).text_secondary,
{
    Color { r: 204, g: 204, b: 204 }
}

/// The panel colour of the dark theme.
pub fn dark_panel() -> (c: Color)
    ensures
        c == palette_of(ThemeType::Dark).panel,
{
    Color { r: 45, g: 45, b: 45 }
}

/// The button colour of the dark theme.
pub fn dark_button() -> (c: Color)
    ensures
        c == palette_of(ThemeType::Dark).button,
{
    Color { r: 77, g: 166, b: 255 }
}

/// The accent colour of the dark theme.
pub fn dark_accent() -> (c: Color)
    ensures
        c == palette_of(ThemeType::Dark).accent,
{
    Color { r: 255, g: 140, b: 66 }
}

/// The status green colour of the dark theme.
pub fn dark_status_green() -> (c: Color)
    ensures
        c == palette_of(ThemeType::Dark).status_green,
{
    Color { r: 0, g: 255, b: 0 }
}

/// The status blue colour of the dark theme.
pub fn dark_status_blue() -> (c: Color)
    ensures
        c == palette_of(ThemeType::Dark).status_blue,
{
    Color { r: 77, g: 166, b: 255 }
}

/// The status red colour of the dark theme.
pub fn dark_status_red() -> (c: Color)
    ensures
        c == palette_of(ThemeType::Dark).status_red,
{
    Color { r: 255, g: 51, b: 51 }
}

/// The status yellow colour of the dark theme.
pub fn dark_status_yellow() -> (c: Color)
    ensures
        c == palette_of(ThemeType::Dark).status_yellow,
{
    Color { r: 255, g: 221, b: 0 }
}

impl Palette {
    /// The palette of the light theme.
    pub fn light() -> (r: Palette)
        ensures
            r == palette_of(ThemeType::Light),
    {
        Palette {
            theme_type: ThemeType::Light,
            background: light_background(),
            text_primary: light_text_primary(),
            text_secondary: light_text_secondary(),
            panel: light_panel(),
            button: light_button(),
            accent: light_accent(),
            status_green: light_status_green(),
            status_blue: light_status_blue(),
            status_red: light_status_red(),
            status_yellow: light_status_yellow(),
        }
    }

    /// The palette of the dark theme.
    pub fn dark() -> (r: Palette)
        ensures
            r == palette_of(ThemeType::Dark),
    {
        Palette {
            theme_type: ThemeType::Dark,
            background: dark_background(),
            text_primary: dark_text_primary(),
            text_secondary: dark_text_secondary(),
            panel: dark_panel(),
            button: dark_button(),
            accent: dark_accent(),
            status_green: dark_status_green(),
            status_blue: dark_status_blue(),
            status_red: dark_status_red(),
            status_yellow: dark_status_yellow(),
        }
    }

    /// The palette of the given theme.
    pub fn for_theme(theme_type: ThemeType) -> (r: Palette)
        ensures
            r == palette_of(theme_type),
    {
        match theme_type {
            ThemeType::Light => Palette::light(),
            ThemeType::Dark => Palette::dark(),
        }
    }
}

} // verus!
