//! The G-code pipeline: validation and optimization of programs.

pub mod backplot;
pub mod imaging;
pub mod optimizer;
pub mod optimizer_laws;
pub mod toolpath;
pub mod validator;

pub use validator::{
    GcodeValidator, GrblVersion, Severity, SeverityCounts, ValidationIssue, ValidationRule,
};
pub use optimizer::{
    GcodeOptimizer, OptimizationStats, OptimizerError, OptimizerOptions, Parameter,
};
pub use backplot::{BackPlotError, BackPlotState, BackPlotStep, BackPlotter, MoveType};
