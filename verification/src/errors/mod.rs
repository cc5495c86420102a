//! Errors, and their text.
pub mod generic;
pub mod schema;
pub mod laws;
