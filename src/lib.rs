//! Coordinate and interaction core of a pannable, zoomable node-graph surface.
//!
//! Lengths are integers in tenths of a pixel; zoom is an integer in thousandths.
pub mod geometry;
pub mod node;
pub mod edge;
pub mod drag;
pub mod surface;
