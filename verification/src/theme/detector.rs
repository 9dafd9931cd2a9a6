//! Detection of the theme that the system prefers.

use vstd::prelude::*;
use crate::text::{contains, chars_of, has};
use super::palette::ThemeType;

verus! {

/// Detects the theme that the system prefers.
#[derive(Debug, Clone, Copy)]
pub struct SystemThemeDetector;

/// What a GTK settings file says of the theme: dark or light when it holds
/// the setting, dark winning over light, and nothing when it does not.
pub open spec fn gtk_theme(settings: Seq<char>) -> Option<ThemeType> {
    if contains(settings, "gtk-application-prefer-dark-theme=true"@) {
        Some(ThemeType::Dark)
    } else if contains(settings, "gtk-application-prefer-dark-theme=false"@) {
        Some(ThemeType::Light)
    } else {
        None
    }
}

/// The theme that the first settings file at or after `i` decides; light
/// when none decides.
pub open spec fn first_gtk_theme(files: Seq<String>, i: int) -> ThemeType
    decreases files.len() - i,
{
    if i < 0 || i >= files.len() {
        ThemeType::Light
    } else {
        match gtk_theme(files[i]@) {
            Some(t) => t,
            None => first_gtk_theme(files, i + 1),
        }
    }
}

impl SystemThemeDetector {
    /// A detector.
    pub fn new() -> (r: SystemThemeDetector) {
        SystemThemeDetector
    }

    /// What a GTK settings file says of the theme.
    pub fn theme_of_gtk_settings(settings: &str) -> (r: Option<ThemeType>)
        ensures
            r == gtk_theme(settings@),
    {
        let v = chars_of(settings);
        if has(&v, "gtk-application-prefer-dark-theme=true") {
            Some(ThemeType::Dark)
        } else if has(&v, "gtk-application-prefer-dark-theme=false") {
            Some(ThemeType::Light)
        } else {
            None
        }
    }

    /// What the `AppsUseLightTheme` value of the registry says of the theme:
    /// dark when it is 0.
    pub fn theme_of_registry_value(apps_use_light_theme: u32) -> (r: ThemeType)
        ensures
            r == if apps_use_light_theme == 0 {
                ThemeType::Dark
            } else {
                ThemeType::Light
            },
    {
        if apps_use_light_theme == 0 {
            ThemeType::Dark
        } else {
            ThemeType::Light
        }
    }

    /// What the interface style reported by `defaults` says of the theme:
    /// dark when it holds `Dark`.
    pub fn theme_of_interface_style(output: &str) -> (r: ThemeType)
        ensures
            r == if contains(output@, "Dark"@) {
                ThemeType::Dark
            } else {
                ThemeType::Light
            },
    {
        let v = chars_of(output);
        if has(&v, "Dark") {
            ThemeType::Dark
        } else {
            ThemeType::Light
        }
    }

    /// The theme that the system prefers, from the contents of the GTK
    /// settings files that could be read, in the order they are looked up:
    /// the first that decides counts, and without any the theme is light.
    pub fn detect_system_theme(settings_files: &Vec<String>) -> (r: ThemeType)
        ensures
            r == first_gtk_theme(settings_files@, 0),
    {
        let mut i: usize = 0;
        while i < settings_files.len()
            invariant
                i <= settings_files@.len(),
                first_gtk_theme(settings_files@, i as int) == first_gtk_theme(settings_files@, 0),
            decreases settings_files@.len() - i,
        {
            match Self::theme_of_gtk_settings(settings_files[i].as_str()) {
                Some(t) => {
                    return t;
                },
                None => {},
            }
            i += 1;
        }
        ThemeType::Light
    }
}

impl Default for SystemThemeDetector {
    fn default() -> (r: SystemThemeDetector) {
        SystemThemeDetector::new()
    }
}

} // verus!
