//! Verified crop-geometry core for an image border-trimming tool.
//!
//! Given a detected content bounding box, the library computes a padded,
//! square-adjusted crop rectangle with underflow-free unsigned arithmetic,
//! and aggregates the outcomes of a batch of independently processed images.

pub mod batch;
pub mod geometry;
