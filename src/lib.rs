pub mod command_line;
pub mod common;
pub mod config;
pub mod style;
pub mod text;
pub mod doc;
pub mod editor;
pub mod status_line;
pub mod laws;
