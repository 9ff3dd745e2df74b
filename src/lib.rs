//! A directory of TOML documents seen as a two-column table: one row per file,
//! holding the file's path and its content re-encoded as JSON text.

pub mod cursor;
pub mod document;
pub mod json;
pub mod loader;
pub mod table;
pub mod value;
