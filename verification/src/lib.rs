//! Verified core of a GLB-to-FBX batch converter.
//!
//! The library models a decoded scene document (meshes, primitives, scene
//! nodes) as plain data, and emits the destination node tree as an exact
//! sequence of writer instructions. All translation rules -- buffer
//! flattening, triangle-termination index encoding, synthetic object
//! identifiers, connection records -- are stated in contracts and verified.
//! File discovery, decoding and binary writing are left to the surrounding
//! application.

pub mod batch;
pub mod emit;
pub mod geometry;
pub mod ids;
pub mod scene;
pub mod textfmt;
