pub mod communication;
pub mod console_logger;
pub mod decimal;
pub mod designer;
pub mod jobs;
pub mod materials;
pub mod pendant;
pub mod stamps;
pub mod text;
pub mod text_laws;
pub mod theme;
pub mod ui_theme;
pub mod widgets;

pub use communication::GrblController;
pub use jobs::JobManager;
pub use materials::MaterialDatabase;
pub use pendant::{PendantConfig, PendantServer};
pub use theme::ThemeManager;
pub use ui_theme::{UIColor, UIThemePalette, UIThemeProvider};
