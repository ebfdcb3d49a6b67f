//! A spatial scene-graph library: an arena of id-addressed nodes, each with
//! a name, parent and child links, and a local transform whose matrix is
//! cached lazily behind a dirty flag; and a camera deriving its view matrix
//! as the inverse of a transform's matrix.
//!
//! The numeric work is delegated to the `glam` crate through the `math`
//! module; everything else — id allocation, link bookkeeping, traversal and
//! the caching discipline — is verified.

pub mod camera;
pub mod math;
pub mod scene_arena;
pub mod scene_node;
pub mod shader;
pub mod transform;
