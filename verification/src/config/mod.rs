//! Configuration: the settings of a run and where each of them came from.
pub mod value;
pub mod settings;
pub mod loader;
