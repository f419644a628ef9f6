//! Terminal output: the escape-code builder that diffs style and cursor
//! state, and the encoder that turns a render buffer into one minimal
//! escape-code stream.

pub mod ansi_builder;
pub mod render;
