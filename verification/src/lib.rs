//! Renderers for an already-built binary spatial-partitioning (k-d) tree.
//!
//! Two artifacts can be produced from a tree: a nested plain-text dump of the
//! tree's shape and stored points, and a TikZ picture that draws the spatial
//! subdivision of a 2-dimensional tree (split lines with labels, and one
//! marker per stored point).
//!
//! The renderers only read the tree. A coordinate is carried as the text its
//! number prints as; no arithmetic is ever done on it, so the whole traversal,
//! the narrowing of bounding rectangles and the placement of labels are
//! verified against spec-level descriptions of the emitted text.

pub mod coord;
pub mod emit;
pub mod labels;
pub mod tree;
pub mod shape;
pub mod diagram;
