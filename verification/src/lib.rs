//! Organizes image files into date-named folders.
//!
//! The library plans every step of a run: it normalizes the capture-date
//! text found in a file's metadata, parses and formats the date, builds the
//! destination paths, and renders the progress output.  The surrounding
//! binary only walks the directory tree, reads bytes, and performs the
//! planned copies.

pub mod date;
pub mod meta;
pub mod plan;
pub mod render;
pub mod run;
pub mod text;
