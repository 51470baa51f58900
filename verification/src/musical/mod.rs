//! Musical systems and structures.
pub mod note;
pub mod poly;
