//! Mesh topology and scene aggregation for wireframe block letters.
//!
//! An [`object::Object`] pools the vertices and edges of the triangles that
//! are added to it, so that shared corners and shared edges exist once, and
//! derives from them a vertex buffer, a line index buffer and a triangle
//! index buffer. An [`application::Application`] keeps objects in insertion
//! order, tracks which one is selected, and merges their buffers into the
//! one pair that every viewport draws from.
//!
//! Coordinates are IEEE 754 bit patterns. The library compares them, negates
//! and halves them and converts indices to them, all on integers; it does no
//! other arithmetic with them. A render vertex therefore names a point in the
//! local space of its object together with the placement that carries the
//! point into world space, and [`types::Placement::steps`] lists the
//! elementary transforms of a placement in the order in which they apply.
//! Evaluating those transforms is left to the caller.
//!
//! The modules under [`laws`] hold what follows from the definitions for
//! every input.

pub mod scalar;
pub mod types;
pub mod object;
pub mod application;
pub mod laws;
pub mod layout;
pub mod upload;
