//! Core logic of a drag-and-drop color-list demo: moving an element of a
//! list to a new position while keeping the relative order of the others,
//! and building a triangle mesh that shades a rectangle with a vertical
//! gradient through an ordered sequence of color stops.
//!
//! Positions in the mesh are kept as exact rationals over integer rectangle
//! coordinates, so every vertex is pinned down without rounding; a renderer
//! divides the numerator by the shared denominator when it draws.

pub mod color;
pub mod gradient;
pub mod reorder;
