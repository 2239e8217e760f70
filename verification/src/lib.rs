//! Keeps a validated, in-memory copy of one configuration file current.

pub mod cli;
pub mod config;
pub mod error;
pub mod features;
pub mod laws;
pub mod text;
pub mod timestamp;
pub mod watcher;
