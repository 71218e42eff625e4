//! Icon resolution for a file tree display. A store is built once from an
//! icon theme (conditional defaults and per-name overrides for directories,
//! files and extensions) and then answers, for a file path or a directory
//! name, which glyph and which optional color to draw.
pub mod color;
pub mod entry;
pub mod laws;
pub mod store;
pub mod table;
pub mod text;
pub mod theme;
