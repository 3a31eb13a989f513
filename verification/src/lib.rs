//! Tuivir: the verified core of a provider-agnostic terminal interface for
//! virtual machines, containers, and microVMs.

pub mod application;
pub mod domain;
pub mod host;
pub mod infrastructure;
pub mod presentation;
pub mod steps;
pub mod text;
pub mod text_laws;
