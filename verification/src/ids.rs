//! Synthetic object identifiers for the emitted scene graph.
//!
//! Every geometry object and every model object in the destination tree
//! carries an integer identifier derived from its index in the source
//! document: mesh identifiers are `(index + 1) * 10000`, node identifiers
//! `(index + 1) * 20000`.

use vstd::prelude::*;

verus! {

/// Identifier of the geometry object emitted for the mesh at `index`.
pub open spec fn mesh_id_spec(index: int) -> int {
    (index + 1) * 10000
}

/// Identifier of the model object emitted for the scene node at `index`.
pub open spec fn node_id_spec(index: int) -> int {
    (index + 1) * 20000
}

/// Largest mesh index whose identifier fits in an `i64`.
pub open spec fn max_mesh_index() -> int {
    0x7fff_ffff_ffff_ffffint / 10000 - 1
}

/// Largest node index whose identifier fits in an `i64`.
pub open spec fn max_node_index() -> int {
    0x7fff_ffff_ffff_ffffint / 20000 - 1
}

pub fn mesh_object_id(index: usize) -> (id: i64)
    requires
        index <= max_mesh_index(),
    ensures
        id == mesh_id_spec(index as int),
{
    (index as u64 + 1) as i64 * 10000
}

pub fn node_object_id(index: usize) -> (id: i64)
    requires
        index <= max_node_index(),
    ensures
        id == node_id_spec(index as int),
{
    (index as u64 + 1) as i64 * 20000
}

/// The two identifier families collide exactly where the mesh index is one
/// more than twice the node index; `mesh_id_spec(2 * j + 1) == node_id_spec(j)`.
pub proof fn lemma_id_collision_exact(i: int, j: int)
    requires
        0 <= i,
        0 <= j,
    ensures
        (mesh_id_spec(i) == node_id_spec(j)) <==> (i == 2 * j + 1),
{
}

/// In a document with at most one mesh, no geometry identifier equals any
/// model identifier.
pub proof fn lemma_id_spaces_disjoint(meshes: nat, nodes: nat, i: int, j: int)
    requires
        meshes <= 1 || nodes == 0,
        0 <= i < meshes,
        0 <= j < nodes,
    ensures
        mesh_id_spec(i) != node_id_spec(j),
{
    lemma_id_collision_exact(i, j);
}

} // verus!
