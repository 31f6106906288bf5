//! Build acceleration for Cargo projects: detects a compilation cache and
//! fast linkers, synthesizes `.cargo/config.toml`, forwards `build` / `run`
//! to Cargo and lists what to install when a build fails.
pub mod cli;
pub mod config;
pub mod probe;
pub mod style;
