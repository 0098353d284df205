//! Flattens a library's multi-file module tree into one self-contained module block.
pub mod flatten;
pub mod item;
pub mod laws;
pub mod manifest;
pub mod parse;
pub mod source;
pub mod text;
pub mod token;
