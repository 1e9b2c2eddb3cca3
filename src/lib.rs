//! A percentage-based UI layout engine: a tree of named layout nodes resolved into
//! rectangles, and the reconciliation of visual anchors against those rectangles.
pub mod geometry;
pub mod tree;
pub mod anchor;
pub mod frame;
pub mod laws;
