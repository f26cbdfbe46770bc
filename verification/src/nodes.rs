//! Ready-made processing units.

pub mod logger;
pub mod prompt;
pub mod recorder;
pub mod stub;
pub mod text;
