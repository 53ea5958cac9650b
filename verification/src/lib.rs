//! The core of a small interactive physics sandbox: a catalog of rigid-body
//! shapes, a registry of the objects that were spawned, and the per-frame
//! decisions that tie key presses, spawn requests and entity lifetimes to it.
//!
//! The crate holds no floating-point values. A real number that only passes
//! through (a coordinate, a dimension, a point in time) is carried by its
//! IEEE-754 bit pattern, and the host converts at its edge.

pub mod laws;
pub mod objects;
pub mod registry;
pub mod shapes;
pub mod systems;
pub mod text;
