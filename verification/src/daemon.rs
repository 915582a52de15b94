//! The daemon's configuration.
pub mod config;
