//! Colours of the themes in the form that the user interface takes them.

use vstd::prelude::*;
use crate::text::chars_of;
use crate::theme::palette::{Palette, ThemeType, Color, palette_of, hex_text, hex_of};
use crate::theme::manager::{ThemeManager, ThemeError, theme_for, toggled};

verus! {

/// A colour for the user interface.
#[derive(Debug, Clone, Copy, PartialEq, Eq, Structural)]
pub struct UIColor {
    pub r: u8,
    pub g: u8,
    pub b: u8,
}

/// The value of a hexadecimal digit of either case, if it is one.
pub open spec fn hex_value(c: char) -> Option<u8> {
    if '0' <= c && c <= '9' {
        Some(((c as u32) - 48) as u8)
    } else if 'a' <= c && c <= 'f' {
        Some(((c as u32) - 87) as u8)
    } else if 'A' <= c && c <= 'F' {
        Some(((c as u32) - 55) as u8)
    } else {
        None
    }
}

/// The byte that two characters spell in hexadecimal: two digits, or a `+`
/// and one digit.
pub open spec fn hex_byte(a: char, b: char) -> Option<u8> {
    match hex_value(b) {
        Some(low) => if a == '+' {
            Some(low)
        } else {
            match hex_value(a) {
                Some(high) => Some((high * 16 + low) as u8),
                None => None,
            }
        },
        None => None,
    }
}

/// The first index at or after `i` that holds no `#` (or the length).
pub open spec fn skip_hashes(s: Seq<char>, i: int) -> int
    decreases s.len() - i,
{
    if 0 <= i < s.len() && s[i] == '#' {
        skip_hashes(s, i + 1)
    } else {
        i
    }
}

/// The colour that a text such as `#FF6B35` spells: leading `#`s are
/// skipped, and exactly six characters in three hexadecimal bytes must
/// follow.
pub open spec fn color_of_hex(s: Seq<char>) -> Option<UIColor> {
    let h = s.subrange(skip_hashes(s, 0), s.len() as int);
    if h.len() != 6 {
        None
    } else {
        match (hex_byte(h[0], h[1]), hex_byte(h[2], h[3]), hex_byte(h[4], h[5])) {
            (Some(r), Some(g), Some(b)) => Some(UIColor { r, g, b }),
            _ => None,
        }
    }
}

fn hex_value_of(c: char) -> (r: Option<u8>)
    ensures
        r == hex_value(c),
{
    if '0' <= c && c <= '9' {
        Some((c as u32 - 48) as u8)
    } else if 'a' <= c && c <= 'f' {
        Some((c as u32 - 87) as u8)
    } else if 'A' <= c && c <= 'F' {
        Some((c as u32 - 55) as u8)
    } else {
        None
    }
}

fn hex_byte_of(a: char, b: char) -> (r: Option<u8>)
    ensures
        r == hex_byte(a, b),
{
    match hex_value_of(b) {
        Some(low) => {
            if a == '+' {
                Some(low)
            } else {
                match hex_value_of(a) {
                    Some(high) => Some(high * 16 + low),
                    None => None,
                }
            }
        },
        None => None,
    }
}

impl UIColor {
    /// The colour that a text such as `#FF6B35` spells.
    pub fn from_hex(hex: &str) -> (r: Option<UIColor>)
        ensures
            r == color_of_hex(hex@),
    {
        let v = chars_of(hex);
        let mut a: usize = 0;
        while a < v.len() && v[a] == '#'
            invariant
                a <= v.len(),
                skip_hashes(v@, a as int) == skip_hashes(v@, 0),
            decreases v.len() - a,
        {
            a += 1;
        }
        if v.len() - a != 6 {
            return None;
        }
        let ghost h = v@.subrange(a as int, v.len() as int);
        assert(h[0] == v@[a + 0] && h[1] == v@[a + 1] && h[2] == v@[a + 2] && h[3] == v@[a + 3]
            && h[4] == v@[a + 4] && h[5] == v@[a + 5]);
        let r = hex_byte_of(v[a], v[a + 1]);
        let g = hex_byte_of(v[a + 2], v[a + 3]);
        let b = hex_byte_of(v[a + 4], v[a + 5]);
        if r.is_some() && g.is_some() && b.is_some() {
            Some(UIColor { r: r.unwrap(), g: g.unwrap(), b: b.unwrap() })
        } else {
            None
        }
    }

    /// The colour as `#RRGGBB`.
    pub fn to_hex(&self) -> (text: String)
        ensures
            text@ == hex_text(self.r, self.g, self.b),
    {
        hex_of(self.r, self.g, self.b)
    }
}

/// The colours of a theme for the user interface.
#[derive(Debug, Clone, Copy, PartialEq, Eq, Structural)]
pub struct UIThemePalette {
    pub background: UIColor,
    pub text_primary: UIColor,
    pub text_secondary: UIColor,
    pub panel: UIColor,
    pub button: UIColor,
    pub accent: UIColor,
    pub status_green: UIColor,
    pub status_blue: UIColor,
    pub status_red: UIColor,
    pub status_yellow: UIColor,
}

/// A colour of a palette as a colour for the user interface.
pub open spec fn ui_color(c: Color) -> UIColor {
    UIColor { r: c.r, g: c.g, b: c.b }
}

/// A palette as a palette for the user interface.
pub open spec fn ui_palette(p: Palette) -> UIThemePalette {
    UIThemePalette {
        background: ui_color(p.background),
        text_primary: ui_color(p.text_primary),
        text_secondary: ui_color(p.text_secondary),
        panel: ui_color(p.panel),
        button: ui_color(p.button),
        accent: ui_color(p.accent),
        status_green: ui_color(p.status_green),
        status_blue: ui_color(p.status_blue),
        status_red: ui_color(p.status_red),
        status_yellow: ui_color(p.status_yellow),
    }
}

fn ui_color_of(c: Color) -> (r: UIColor)
    ensures
        r == ui_color(c),
{
    UIColor { r: c.r, g: c.g, b: c.b }
}

impl UIThemePalette {
    /// The colours of a palette, each as it is.
    pub fn from_palette(palette: &Palette) -> (r: UIThemePalette)
        ensures
            r == ui_palette(*palette),
    {
        UIThemePalette {
            background: ui_color_of(palette.background),
            text_primary: ui_color_of(palette.text_primary),
            text_secondary: ui_color_of(palette.text_secondary),
            panel: ui_color_of(palette.panel),
            button: ui_color_of(palette.button),
            accent: ui_color_of(palette.accent),
            status_green: ui_color_of(palette.status_green),
            status_blue: ui_color_of(palette.status_blue),
            status_red: ui_color_of(palette.status_red),
            status_yellow: ui_color_of(palette.status_yellow),
        }
    }

    /// The colours of the given theme.
    pub fn for_theme(theme: ThemeType) -> (r: UIThemePalette)
        ensures
            r == ui_palette(palette_of(theme)),
    {
        let palette = Palette::for_theme(theme);
        Self::from_palette(&palette)
    }

    /// The colours of the light theme.
    pub fn light() -> (r: UIThemePalette)
        ensures
            r == ui_palette(palette_of(ThemeType::Light)),
    {
        Self::for_theme(ThemeType::Light)
    }

    /// The colours of the dark theme.
    pub fn dark() -> (r: UIThemePalette)
        ensures
            r == ui_palette(palette_of(ThemeType::Dark)),
    {
        Self::for_theme(ThemeType::Dark)
    }
}

/// Keeps the colours of the user interface in step with the theme in use.
#[derive(Debug)]
pub struct UIThemeProvider {
    pub manager: ThemeManager,
    pub current_palette: UIThemePalette,
}

impl UIThemeProvider {
    /// A provider for the theme that the manager has in use.
    pub fn new(manager: ThemeManager) -> (r: UIThemeProvider)
        ensures
            r.manager == manager,
            r.current_palette == ui_palette(palette_of(manager.current_theme)),
    {
        let palette = manager.get_palette();
        let current_palette = UIThemePalette::from_palette(&palette);
        UIThemeProvider { manager, current_palette }
    }

    /// The colours in use.
    pub fn get_palette(&self) -> (r: UIThemePalette)
        ensures
            r == self.current_palette,
    {
        self.current_palette
    }

    /// The theme in use.
    pub fn get_theme_type(&self) -> (r: ThemeType)
        ensures
            r == self.manager.current_theme,
    {
        self.manager.get_theme()
    }

    /// The preference of the user.
    pub fn get_preference(&self) -> (r: String)
        ensures
            r == self.manager.user_preference,
    {
        self.manager.get_preference()
    }

    /// Sets the theme and its colours; the preference to store is handed
    /// back.
    pub fn set_theme(&mut self, theme: ThemeType) -> (preference: String)
        ensures
            preference@ == theme.name(),
            final(self).manager.current_theme == theme,
            final(self).manager.user_preference@ == theme.name(),
            final(self).current_palette == ui_palette(palette_of(theme)),
    {
        let preference = self.manager.set_theme(theme);
        self.current_palette = UIThemePalette::for_theme(theme);
        preference
    }

    /// Sets the preference, the theme that it asks for and its colours. A
    /// preference that is none of `light`, `dark` and `system` is refused
    /// and changes nothing.
    pub fn set_preference(&mut self, preference: &str, system: ThemeType) -> (r: Result<
        (),
        ThemeError,
    >)
        ensures
            match theme_for(preference@, system) {
                Some(t) => r is Ok && final(self).manager.current_theme == t && final(self).manager.user_preference@ == preference@ && final(self).current_palette
                    == ui_palette(palette_of(t)),
                None => r == Err::<(), ThemeError>(ThemeError::InvalidPreference) && *final(self)
                    == *old(self),
            },
    {
        match self.manager.set_preference(preference, system) {
            Ok(_) => {
                self.current_palette = UIThemePalette::for_theme(self.manager.get_theme());
                Ok(())
            },
            Err(e) => Err(e),
        }
    }

    /// Switches to the other theme and its colours, and hands the theme
    /// back.
    pub fn toggle_theme(&mut self) -> (r: ThemeType)
        ensures
            r == toggled(old(self).manager.current_theme),
            final(self).manager.current_theme == r,
            final(self).manager.user_preference@ == r.name(),
            final(self).current_palette == ui_palette(palette_of(r)),
    {
        let new_theme = self.manager.toggle_theme();
        self.current_palette = UIThemePalette::for_theme(new_theme);
        new_theme
    }
}

} // verus!
