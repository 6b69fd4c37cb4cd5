//! Detection of the developer tools that apply to a project directory, and the
//! state of the interactive session that runs them.

pub mod config;
pub mod screen;
pub mod tools;
pub mod ui;
