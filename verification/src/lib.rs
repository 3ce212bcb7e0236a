//! Core of a command-line table previewer: given a delimited-text or
//! columnar-binary source, it resolves the effective configuration (format,
//! delimiter, row budget, view mode), loads the table through the polars
//! engine, and picks exactly one view to render.

pub mod args;
pub mod config;
pub mod dispatch;
pub mod engine;
pub mod errors;
pub mod file_format;
pub mod loader;
