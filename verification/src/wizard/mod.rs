//! Setting up a project: blueprints to install, the example to download,
//! and the checks of the configuration wizard.

pub mod blueprint;
pub mod example;
pub mod flow;
pub mod templates;
