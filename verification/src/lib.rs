//! Render-tree value types and marker placement for vector graphics.
//!
//! Numbers are IEEE 754 values held by their bit patterns: the library
//! classifies, compares and negates them, which is exact on bit patterns,
//! and leaves arithmetic on them to its callers.

pub mod attributes;
pub mod defs;
pub mod dom;
pub mod filter;
pub mod geom;
pub mod marker;
pub mod number;
pub mod options;
pub mod report;
pub mod resolve;
pub mod text;
