//! The interactive mode: picking a saved configuration to run.

pub mod runner;

pub use runner::ConfigEntry;
