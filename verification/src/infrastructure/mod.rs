//! What Provider CLIs and files are asked for, and what is made of their
//! answers.

pub mod config;
pub mod laws;
pub mod pane_boundary_state;
pub mod paths;
pub mod process;
pub mod provider;
pub mod runtime;
