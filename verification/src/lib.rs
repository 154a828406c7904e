//! Verified core of a code quality toolkit: line indexes, snippet
//! truncation, linter output interpretation and tool installation rules.

mod text;
pub mod analysis;
pub mod line_index;
pub mod snippet;
pub mod tool;
pub mod executor;
pub mod utils;
pub mod parser;
pub mod planner;
pub mod pattern;
pub mod paths;
pub mod workspace_entries;
pub mod llm;
pub mod lang;
