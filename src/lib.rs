pub mod config;
pub mod lines;
pub mod properties;
pub mod search;
pub mod text;

pub use config::{Config, ignore_case_from, select_lines, MISSING_FILE_PATH, MISSING_QUERY};
pub use lines::lines;
pub use search::{search, search_case_insensitive};
pub use text::contains_query;
