//! State of the user interface widgets: connection, G-code loading, jogging
//! and overrides.

pub mod connection;
pub mod gcode_loading;
pub mod jog;
pub mod overrides;

pub use connection::ConnectionWidget;
pub use gcode_loading::GcodeLoading;
pub use jog::{JogStepSize, JogWidget};
pub use overrides::OverridesWidget;
