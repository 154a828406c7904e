//! Interpreting the output of linters as issues.

pub mod biome;
pub mod mypy;
pub mod ast_grep;
pub mod editorconfig_checker;
pub mod haml_lint;
pub mod terraform;
pub mod reek;
pub mod rdjson;
