//! Comment-box node groups: their styling options, the state kept for each group, and
//! the builder that callers fill in each frame.

pub mod geometry;
pub mod group;
pub mod laws;
