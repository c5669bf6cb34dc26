//! Loading and validating benchmark-suite configuration files: a framework
//! block, one or more named test variants, and the language a configuration
//! belongs to, read off its place on disk.

pub mod config;
pub mod document;
pub mod error;
pub mod laws;
pub mod paths;
