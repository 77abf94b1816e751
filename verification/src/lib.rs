//! A small line-oriented text search library.
//!
//! `engine` holds the substring matcher and the line filter that the
//! command-line driver prints from; `logger` holds a leveled console
//! logger with structured extra parameters.

pub mod engine;
pub mod logger;
