//! Flattening of nested sequence columns.
//!
//! A sequence column stores one variable-length list per row: a boundary
//! buffer of `rows + 1` non-decreasing integers delimits each row's span in a
//! flat values storage, which may itself be another sequence column. This
//! crate collapses any depth of such nesting into a single level, composing
//! the per-level boundary buffers into one buffer that addresses the leaf
//! storage directly, while the leaf storage itself is reused, never copied.

pub mod flatten;
pub mod laws;
pub mod resolve;
pub mod types;
