//! Readers of what a request brings.

pub mod headers;
