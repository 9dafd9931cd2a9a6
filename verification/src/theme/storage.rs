//! Where the theme preference is kept.

use vstd::prelude::*;
use crate::text::{chars_of, string_of, extend_str, trim};

verus! {

/// Why the storage could not be set up.
#[derive(Debug, Clone, Copy, PartialEq, Eq, Structural)]
pub enum StorageError {
    /// The configuration directory of the user is not known.
    NoConfigDirectory,
}

/// The preference that holds when none is stored.
pub open spec fn default_preference() -> Seq<char> {
    "system"@
}

/// The preference that the stored text yields: the default when there is no
/// file, when the file is blank, and when no theme could be read from it.
pub open spec fn stored_preference(content: Option<Seq<char>>, theme: Option<Seq<char>>) -> Seq<
    char,
> {
    match content {
        None => default_preference(),
        Some(text) => if trim(text).len() == 0 {
            default_preference()
        } else {
            match theme {
                Some(t) => t,
                None => default_preference(),
            }
        },
    }
}

/// Storage of the theme preference.
#[derive(Debug)]
pub struct ThemeStorage {
    pub config_path: String,
}

impl ThemeStorage {
    /// The storage below the configuration directory of the user.
    pub fn new(config_dir: Option<&str>) -> (r: Result<ThemeStorage, StorageError>)
        ensures
            match config_dir {
                Some(dir) => r is Ok && r->Ok_0.config_path@ == dir@ + "/gcodekit2/theme.json"@,
                None => r == Err::<ThemeStorage, StorageError>(StorageError::NoConfigDirectory),
            },
    {
        match config_dir {
            Some(dir) => {
                let mut v = chars_of(dir);
                extend_str(&mut v, "/gcodekit2/theme.json");
                Ok(ThemeStorage { config_path: string_of(&v) })
            },
            None => Err(StorageError::NoConfigDirectory),
        }
    }

    /// The path of the configuration file.
    pub fn config_path(&self) -> (r: &String)
        ensures
            *r == self.config_path,
    {
        &self.config_path
    }

    /// The preference that the stored text yields. `content` is the text of
    /// the configuration file, if there is a file, and `theme` the theme that
    /// was read from it, if one could be.
    pub fn preference_of(content: Option<&str>, theme: Option<String>) -> (r: String)
        ensures
            r@ == stored_preference(
                match content {
                    Some(c) => Some(c@),
                    None => None,
                },
                match theme {
                    Some(t) => Some(t@),
                    None => None,
                },
            ),
    {
        match content {
            None => "system".to_owned(),
            Some(text) => {
                let t = crate::text::trimmed(&chars_of(text));
                if t.len() == 0 {
                    "system".to_owned()
                } else {
                    match theme {
                        Some(t) => t,
                        None => "system".to_owned(),
                    }
                }
            },
        }
    }
}

impl Default for ThemeStorage {
    fn default() -> (r: ThemeStorage)
        ensures
            r.config_path@ == ".gcodekit2_theme_default.json"@,
    {
        ThemeStorage { config_path: ".gcodekit2_theme_default.json".to_owned() }
    }
}

} // verus!
