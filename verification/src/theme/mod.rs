//! Themes: light and dark palettes, the choice between them, and where the
//! preference is kept.

pub mod detector;
pub mod manager;
pub mod palette;
pub mod storage;

pub use detector::SystemThemeDetector;
pub use manager::ThemeManager;
pub use palette::{Palette, ThemeType};
pub use storage::ThemeStorage;
