//! Planning a check: which configuration files a tool needs and how issues
//! are adjusted before they are reported.

pub mod config_files;
pub mod plugin_tab_column_width_transformer;
