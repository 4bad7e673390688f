//! Plain-data model of a decoded source scene document.
//!
//! The surrounding application decodes a source file and hands the library
//! one [`SceneDoc`]: an ordered sequence of meshes and an ordered sequence of
//! scene nodes. Vertex coordinates are carried as the bit patterns of
//! double-precision values; the library treats them as opaque payload and
//! never does arithmetic on them.

use vstd::prelude::*;

verus! {

/// One vertex position: the bit patterns of its three double-precision
/// coordinates, in x, y, z order.
#[derive(Clone, Copy, PartialEq, Eq, Structural, Debug)]
pub struct Vertex {
    pub x_bits: u64,
    pub y_bits: u64,
    pub z_bits: u64,
}

/// One geometry primitive: a run of vertex positions and a triangle index
/// buffer whose entries refer to those positions.
#[derive(Clone, Debug)]
pub struct Primitive {
    pub positions: Vec<Vertex>,
    pub indices: Vec<u32>,
}

/// One mesh: an optional name and its primitives, in source order.
#[derive(Clone, Debug)]
pub struct Mesh {
    pub name: Option<String>,
    pub primitives: Vec<Primitive>,
}

/// One scene node: an optional name and, optionally, the index of the mesh
/// it references.
#[derive(Clone, Debug)]
pub struct SceneNode {
    pub name: Option<String>,
    pub mesh: Option<usize>,
}

/// A decoded scene document.
#[derive(Clone, Debug)]
pub struct SceneDoc {
    pub meshes: Vec<Mesh>,
    pub nodes: Vec<SceneNode>,
}

} // verus!
