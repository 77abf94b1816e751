pub mod search;

pub use search::{search, matching_lines, Config};
