//! Verified core of a small spreadsheet proxy: a configured cell range is read
//! upstream, its grid of cells is flattened row by row, shuffled, and handed
//! back as one reply.
//!
//! The crate holds everything that is computed; reading files, talking to the
//! spreadsheet provider and serving HTTP are left to the program around it.

pub mod config;
pub mod document;
pub mod fetch;
pub mod grid;
pub mod shuffle;

pub use config::{Config, ConfigError, Key};
pub use document::Field;
pub use fetch::{respond, Reply, Upstream};
pub use grid::flatten;
pub use shuffle::shuffle;
