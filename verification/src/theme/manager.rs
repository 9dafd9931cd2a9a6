//! The theme in use and the preference behind it.

use vstd::prelude::*;
use crate::text::{chars_of, spells};
use super::palette::{Palette, ThemeType, palette_of};

verus! {

/// Why the manager refused a preference.
#[derive(Debug, Clone, Copy, PartialEq, Eq, Structural)]
pub enum ThemeError {
    /// The preference is none of `light`, `dark` and `system`.
    InvalidPreference,
}

/// The theme that a preference asks for, given the theme of the system;
/// nothing for a preference that is none of `light`, `dark` and `system`.
pub open spec fn theme_for(preference: Seq<char>, system: ThemeType) -> Option<ThemeType> {
    if preference == "system"@ {
        Some(system)
    } else if preference == "light"@ {
        Some(ThemeType::Light)
    } else if preference == "dark"@ {
        Some(ThemeType::Dark)
    } else {
        None
    }
}

/// The other theme.
pub open spec fn toggled(theme: ThemeType) -> ThemeType {
    match theme {
        ThemeType::Light => ThemeType::Dark,
        ThemeType::Dark => ThemeType::Light,
    }
}

/// Keeps the theme in use and the preference of the user.
#[derive(Debug)]
pub struct ThemeManager {
    pub current_theme: ThemeType,
    pub user_preference: String,
}

fn theme_of_preference(preference: &str, system: ThemeType) -> (r: Option<ThemeType>)
    ensures
        r == theme_for(preference@, system),
{
    let v = chars_of(preference);
    if spells(&v, "system") {
        Some(system)
    } else if spells(&v, "light") {
        Some(ThemeType::Light)
    } else if spells(&v, "dark") {
        Some(ThemeType::Dark)
    } else {
        None
    }
}

impl ThemeManager {
    /// The manager for a stored preference and the theme of the system. A
    /// preference that is none of `light`, `dark` and `system` is kept and
    /// shown light.
    pub fn new(preference: String, system: ThemeType) -> (r: ThemeManager)
        ensures
            r.user_preference == preference,
            r.current_theme == match theme_for(preference@, system) {
                Some(t) => t,
                None => ThemeType::Light,
            },
    {
        let theme = match theme_of_preference(preference.as_str(), system) {
            Some(t) => t,
            None => ThemeType::Light,
        };
        ThemeManager { current_theme: theme, user_preference: preference }
    }

    /// The theme in use.
    pub fn get_theme(&self) -> (r: ThemeType)
        ensures
            r == self.current_theme,
    {
        self.current_theme
    }

    /// The preference of the user: `light`, `dark` or `system`.
    pub fn get_preference(&self) -> (r: String)
        ensures
            r == self.user_preference,
    {
        self.user_preference.clone()
    }

    /// Sets the theme; its name becomes the preference and is handed back to
    /// be stored.
    pub fn set_theme(&mut self, theme: ThemeType) -> (preference: String)
        ensures
            preference@ == theme.name(),
            final(self).current_theme == theme,
            final(self).user_preference@ == theme.name(),
    {
        let preference = theme.to_string();
        self.current_theme = theme;
        self.user_preference = preference.clone();
        preference
    }

    /// Sets the preference and the theme that it asks for. A preference that
    /// is none of `light`, `dark` and `system` is refused and changes
    /// nothing.
    pub fn set_preference(&mut self, preference: &str, system: ThemeType) -> (r: Result<
        (),
        ThemeError,
    >)
        ensures
            match theme_for(preference@, system) {
                Some(t) => r is Ok && final(self).current_theme == t && final(self).user_preference@
                    == preference@,
                None => r == Err::<(), ThemeError>(ThemeError::InvalidPreference) && *final(self)
                    == *old(self),
            },
    {
        match theme_of_preference(preference, system) {
            Some(t) => {
                self.current_theme = t;
                self.user_preference = preference.to_owned();
                Ok(())
            },
            None => Err(ThemeError::InvalidPreference),
        }
    }

    /// The palette of the theme in use.
    pub fn get_palette(&self) -> (r: Palette)
        ensures
            r == palette_of(self.current_theme),
    {
        Palette::for_theme(self.current_theme)
    }

    /// The palette of the given theme.
    pub fn get_palette_for(&self, theme_type: ThemeType) -> (r: Palette)
        ensures
            r == palette_of(theme_type),
    {
        Palette::for_theme(theme_type)
    }

    /// Switches to the other theme and hands it back.
    pub fn toggle_theme(&mut self) -> (r: ThemeType)
        ensures
            r == toggled(old(self).current_theme),
            final(self).current_theme == r,
            final(self).user_preference@ == r.name(),
    {
        let new_theme = match self.current_theme {
            ThemeType::Light => ThemeType::Dark,
            ThemeType::Dark => ThemeType::Light,
        };
        self.set_theme(new_theme);
        new_theme
    }

    /// Takes over the theme of the system if the preference is `system`.
    pub fn apply_system_theme(&mut self, system: ThemeType)
        ensures
            final(self).user_preference == old(self).user_preference,
            final(self).current_theme == if old(self).user_preference@ == "system"@ {
                system
            } else {
                old(self).current_theme
            },
    {
        let v = chars_of(self.user_preference.as_str());
        if spells(&v, "system") {
            self.current_theme = system;
        }
    }
}

} // verus!
