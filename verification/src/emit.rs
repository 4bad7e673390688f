//! The tree emitter.
//!
//! A converted document is a fixed sequence of destination container nodes:
//! a header, a global-settings block with a hard-coded coordinate convention,
//! a coarse definitions count, one geometry object per mesh, one model object
//! per scene node, and one connection record per scene node that references a
//! mesh. The emitter renders that tree as a flat stream of writer
//! instructions ([`FbxStep`]); the surrounding application replays the stream
//! against the binary writer one instruction at a time.
//!
//! The stream for a given document is pinned down exactly by
//! [`document_steps`].

use vstd::prelude::*;
use vstd::string::StringExecFns;
use crate::geometry::{
    buffers_within, encode_indices, encode_polygon_indices, flat_indices, flat_positions,
    flatten_primitives, i32s_as_ints, lemma_flat_indices_bound, total_vertex_count, u32s_as_ints,
};
use crate::ids::{mesh_id_spec, mesh_object_id, node_id_spec, node_object_id};
use crate::scene::{Mesh, SceneDoc, SceneNode};

verus! {

/// Bit pattern of the double-precision value one, the hard-coded unit scale.
pub const DOUBLE_ONE_BITS: u64 = 0x3FF0_0000_0000_0000;

/// One writer instruction. Floating-point attribute values are carried as
/// the bit patterns of the doubles to be written.
pub enum FbxStep {
    /// Open a child node with the given name.
    BeginNode { name: String },
    /// Close the most recently opened node.
    EndNode,
    /// Append a 32-bit integer attribute to the open node.
    AttrI32 { value: i32 },
    /// Append a 64-bit integer attribute to the open node.
    AttrI64 { value: i64 },
    /// Append a string attribute to the open node.
    AttrStr { value: String },
    /// Append a double attribute, given by its bit pattern.
    AttrF64Bits { bits: u64 },
    /// Append an array-of-doubles attribute, given by bit patterns.
    AttrF64BitsArr { values: Vec<u64> },
    /// Append an array-of-32-bit-integers attribute.
    AttrI32Arr { values: Vec<i32> },
}

/// The mathematical reading of one writer instruction.
pub ghost enum StepView {
    BeginNode { name: Seq<char> },
    EndNode,
    AttrI32 { value: int },
    AttrI64 { value: int },
    AttrStr { value: Seq<char> },
    AttrF64Bits { bits: u64 },
    AttrF64BitsArr { values: Seq<u64> },
    AttrI32Arr { values: Seq<int> },
}

impl View for FbxStep {
    type V = StepView;

    open spec fn view(&self) -> StepView {
        match self {
            FbxStep::BeginNode { name } => StepView::BeginNode { name: name@ },
            FbxStep::EndNode => StepView::EndNode,
            FbxStep::AttrI32 { value } => StepView::AttrI32 { value: *value as int },
            FbxStep::AttrI64 { value } => StepView::AttrI64 { value: *value as int },
            FbxStep::AttrStr { value } => StepView::AttrStr { value: value@ },
            FbxStep::AttrF64Bits { bits } => StepView::AttrF64Bits { bits: *bits },
            FbxStep::AttrF64BitsArr { values } => StepView::AttrF64BitsArr { values: values@ },
            FbxStep::AttrI32Arr { values } => StepView::AttrI32Arr {
                values: i32s_as_ints(values@),
            },
        }
    }
}

/// An instruction buffer read as its mathematical steps.
pub open spec fn steps_view(s: Seq<FbxStep>) -> Seq<StepView> {
    Seq::new(s.len(), |k: int| s[k]@)
}

/// The header node: a single format-revision attribute.
pub open spec fn header_steps() -> Seq<StepView> {
    seq![
        StepView::BeginNode { name: "FBXHeaderExtension"@ },
        StepView::AttrI32 { value: 1003 },
        StepView::EndNode,
    ]
}

/// One integer entry of the global-settings properties block.
pub open spec fn int_property_steps(name: Seq<char>, value: int) -> Seq<StepView> {
    seq![
        StepView::BeginNode { name: "P"@ },
        StepView::AttrStr { value: name },
        StepView::AttrStr { value: "int"@ },
        StepView::AttrStr { value: "Integer"@ },
        StepView::AttrStr { value: ""@ },
        StepView::AttrI32 { value: value },
        StepView::EndNode,
    ]
}

/// One double entry of the global-settings properties block.
pub open spec fn double_property_steps(name: Seq<char>, bits: u64) -> Seq<StepView> {
    seq![
        StepView::BeginNode { name: "P"@ },
        StepView::AttrStr { value: name },
        StepView::AttrStr { value: "double"@ },
        StepView::AttrStr { value: "Number"@ },
        StepView::AttrStr { value: ""@ },
        StepView::AttrF64Bits { bits: bits },
        StepView::EndNode,
    ]
}

/// The global-settings node: a version marker and ten fixed properties
/// encoding one hard-coded coordinate convention and unit scale, independent
/// of the source document.
pub open spec fn global_settings_steps() -> Seq<StepView> {
    seq![
        StepView::BeginNode { name: "GlobalSettings"@ },
        StepView::BeginNode { name: "Version"@ },
        StepView::AttrI32 { value: 1000 },
        StepView::EndNode,
        StepView::BeginNode { name: "Properties70"@ },
    ] + int_property_steps("UpAxis"@, 1) + int_property_steps("UpAxisSign"@, 1)
        + int_property_steps("FrontAxis"@, 2) + int_property_steps("FrontAxisSign"@, 1)
        + int_property_steps("CoordAxis"@, 0) + int_property_steps("CoordAxisSign"@, 1)
        + int_property_steps("OriginalUpAxis"@, -1) + int_property_steps("OriginalUpAxisSign"@, 1)
        + double_property_steps("UnitScaleFactor"@, DOUBLE_ONE_BITS) + double_property_steps(
        "OriginalUnitScaleFactor"@,
        DOUBLE_ONE_BITS,
    ) + seq![StepView::EndNode, StepView::EndNode]
}

/// The definitions node: one attribute holding the combined object count.
pub open spec fn definitions_steps(mesh_count: int, node_count: int) -> Seq<StepView> {
    seq![
        StepView::BeginNode { name: "Definitions"@ },
        StepView::AttrI32 { value: mesh_count + node_count },
        StepView::EndNode,
    ]
}

/// Append one step to the instruction buffer.
fn push_step(out: &mut Vec<FbxStep>, step: FbxStep)
    ensures
        steps_view(final(out)@) == steps_view(old(out)@).push(step@),
{
    let ghost sv = step@;
    out.push(step);
    proof {
        assert(steps_view(out@) =~= steps_view(old(out)@).push(sv));
    }
}

/// Append a `BeginNode` instruction for the given node name.
fn push_begin(out: &mut Vec<FbxStep>, name: &str)
    ensures
        steps_view(final(out)@) == steps_view(old(out)@).push(
            StepView::BeginNode { name: name@ },
        ),
{
    push_step(out, FbxStep::BeginNode { name: String::from_str(name) });
}

/// Append a string attribute instruction.
fn push_str_attr(out: &mut Vec<FbxStep>, value: &str)
    ensures
        steps_view(final(out)@) == steps_view(old(out)@).push(
            StepView::AttrStr { value: value@ },
        ),
{
    push_step(out, FbxStep::AttrStr { value: String::from_str(value) });
}

/// Append one integer property entry of the global-settings block.
fn push_int_property(out: &mut Vec<FbxStep>, name: &str, value: i32)
    ensures
        steps_view(final(out)@) == steps_view(old(out)@) + int_property_steps(
            name@,
            value as int,
        ),
{
    push_begin(out, "P");
    push_str_attr(out, name);
    push_str_attr(out, "int");
    push_str_attr(out, "Integer");
    push_str_attr(out, "");
    push_step(out, FbxStep::AttrI32 { value });
    push_step(out, FbxStep::EndNode);
    proof {
        assert(steps_view(out@) =~= steps_view(old(out)@) + int_property_steps(
            name@,
            value as int,
        ));
    }
}

/// Append one double property entry of the global-settings block.
fn push_double_property(out: &mut Vec<FbxStep>, name: &str, bits: u64)
    ensures
        steps_view(final(out)@) == steps_view(old(out)@) + double_property_steps(name@, bits),
{
    push_begin(out, "P");
    push_str_attr(out, name);
    push_str_attr(out, "double");
    push_str_attr(out, "Number");
    push_str_attr(out, "");
    push_step(out, FbxStep::AttrF64Bits { bits });
    push_step(out, FbxStep::EndNode);
    proof {
        assert(steps_view(out@) =~= steps_view(old(out)@) + double_property_steps(name@, bits));
    }
}

/// Append the header node.
fn emit_header(out: &mut Vec<FbxStep>)
    ensures
        steps_view(final(out)@) == steps_view(old(out)@) + header_steps(),
{
    push_begin(out, "FBXHeaderExtension");
    push_step(out, FbxStep::AttrI32 { value: 1003 });
    push_step(out, FbxStep::EndNode);
    proof {
        assert(steps_view(out@) =~= steps_view(old(out)@) + header_steps());
    }
}

/// Append the global-settings node.
fn emit_global_settings(out: &mut Vec<FbxStep>)
    ensures
        steps_view(final(out)@) == steps_view(old(out)@) + global_settings_steps(),
{
    push_begin(out, "GlobalSettings");
    push_begin(out, "Version");
    push_step(out, FbxStep::AttrI32 { value: 1000 });
    push_step(out, FbxStep::EndNode);
    push_begin(out, "Properties70");
    push_int_property(out, "UpAxis", 1);
    push_int_property(out, "UpAxisSign", 1);
    push_int_property(out, "FrontAxis", 2);
    push_int_property(out, "FrontAxisSign", 1);
    push_int_property(out, "CoordAxis", 0);
    push_int_property(out, "CoordAxisSign", 1);
    push_int_property(out, "OriginalUpAxis", -1);
    push_int_property(out, "OriginalUpAxisSign", 1);
    push_double_property(out, "UnitScaleFactor", DOUBLE_ONE_BITS);
    push_double_property(out, "OriginalUnitScaleFactor", DOUBLE_ONE_BITS);
    push_step(out, FbxStep::EndNode);
    push_step(out, FbxStep::EndNode);
    proof {
        assert(steps_view(out@) =~= steps_view(old(out)@) + global_settings_steps());
    }
}

/// Append the definitions node for the given object counts.
fn emit_definitions(out: &mut Vec<FbxStep>, mesh_count: usize, node_count: usize)
    requires
        mesh_count + node_count <= i32::MAX,
    ensures
        steps_view(final(out)@) == steps_view(old(out)@) + definitions_steps(
            mesh_count as int,
            node_count as int,
        ),
{
    let total = mesh_count + node_count;
    push_begin(out, "Definitions");
    push_step(out, FbxStep::AttrI32 { value: total as i32 });
    push_step(out, FbxStep::EndNode);
    proof {
        assert(steps_view(out@) =~= steps_view(old(out)@) + definitions_steps(
            mesh_count as int,
            node_count as int,
        ));
    }
}

/// Name of the geometry object emitted for a mesh: the mesh name, or `Mesh`
/// where the source left it unnamed, under the `Geometry::` prefix.
pub open spec fn geometry_name_chars(name: Option<String>) -> Seq<char> {
    match name {
        Some(n) => "Geometry::"@ + n@,
        None => "Geometry::"@ + "Mesh"@,
    }
}

/// Name of the model object emitted for a scene node: the node name, or
/// `Node` where the source left it unnamed, under the `Model::` prefix.
pub open spec fn model_name_chars(name: Option<String>) -> Seq<char> {
    match name {
        Some(n) => "Model::"@ + n@,
        None => "Model::"@ + "Node"@,
    }
}

/// Build the geometry object name of a mesh.
pub fn geometry_name(name: &Option<String>) -> (r: String)
    ensures
        r@ == geometry_name_chars(*name),
{
    let mut s = String::from_str("Geometry::");
    match name {
        Some(n) => s.append(n.as_str()),
        None => s.append("Mesh"),
    }
    s
}

/// Build the model object name of a scene node.
pub fn model_name(name: &Option<String>) -> (r: String)
    ensures
        r@ == model_name_chars(*name),
{
    let mut s = String::from_str("Model::");
    match name {
        Some(n) => s.append(n.as_str()),
        None => s.append("Node"),
    }
    s
}

/// The geometry object emitted for the mesh at `index`: identifier, name,
/// type tag, the flattened position buffer, and the triangle-terminated
/// index buffer.
pub open spec fn geometry_steps(m: Mesh, index: int) -> Seq<StepView> {
    seq![
        StepView::BeginNode { name: "Geometry"@ },
        StepView::AttrI64 { value: mesh_id_spec(index) },
        StepView::AttrStr { value: geometry_name_chars(m.name) },
        StepView::AttrStr { value: "Mesh"@ },
        StepView::BeginNode { name: "Vertices"@ },
        StepView::AttrF64BitsArr { values: flat_positions(m.primitives@) },
        StepView::EndNode,
        StepView::BeginNode { name: "PolygonVertexIndex"@ },
        StepView::AttrI32Arr { values: encode_indices(flat_indices(m.primitives@)) },
        StepView::EndNode,
        StepView::EndNode,
    ]
}

/// The geometry objects of all meshes, in mesh order.
pub open spec fn geometries_steps(meshes: Seq<Mesh>) -> Seq<StepView>
    decreases meshes.len(),
{
    if meshes.len() == 0 {
        Seq::empty()
    } else {
        geometries_steps(meshes.drop_last()) + geometry_steps(
            meshes.last(),
            meshes.len() - 1,
        )
    }
}

/// The model object emitted for the scene node at `index`.
pub open spec fn model_steps(n: SceneNode, index: int) -> Seq<StepView> {
    seq![
        StepView::BeginNode { name: "Model"@ },
        StepView::AttrI64 { value: node_id_spec(index) },
        StepView::AttrStr { value: model_name_chars(n.name) },
        StepView::AttrStr { value: "Mesh"@ },
        StepView::EndNode,
    ]
}

/// The model objects of all scene nodes, in node order.
pub open spec fn models_steps(nodes: Seq<SceneNode>) -> Seq<StepView>
    decreases nodes.len(),
{
    if nodes.len() == 0 {
        Seq::empty()
    } else {
        models_steps(nodes.drop_last()) + model_steps(nodes.last(), nodes.len() - 1)
    }
}

/// The connection record emitted for the scene node at `index`: an
/// object-to-object link from its mesh's identifier to its own, or nothing
/// where the node references no mesh.
pub open spec fn connection_steps(n: SceneNode, index: int) -> Seq<StepView> {
    match n.mesh {
        Some(mi) => seq![
            StepView::BeginNode { name: "C"@ },
            StepView::AttrStr { value: "OO"@ },
            StepView::AttrI64 { value: mesh_id_spec(mi as int) },
            StepView::AttrI64 { value: node_id_spec(index) },
            StepView::EndNode,
        ],
        None => Seq::empty(),
    }
}

/// The connection records of all scene nodes, in node order.
pub open spec fn connections_steps(nodes: Seq<SceneNode>) -> Seq<StepView>
    decreases nodes.len(),
{
    if nodes.len() == 0 {
        Seq::empty()
    } else {
        connections_steps(nodes.drop_last()) + connection_steps(
            nodes.last(),
            nodes.len() - 1,
        )
    }
}

/// Number of scene nodes whose mesh reference is present.
pub open spec fn connected_node_count(nodes: Seq<SceneNode>) -> nat
    decreases nodes.len(),
{
    if nodes.len() == 0 {
        0
    } else {
        connected_node_count(nodes.drop_last()) + (if nodes.last().mesh is Some {
            1nat
        } else {
            0nat
        })
    }
}

/// Connection law: each connection record is five instructions, so the
/// stream holds exactly one record per scene node whose mesh reference is
/// present -- nodes without one emit nothing.
pub proof fn lemma_connection_count(nodes: Seq<SceneNode>)
    ensures
        connections_steps(nodes).len() == 5 * connected_node_count(nodes),
    decreases nodes.len(),
{
    if nodes.len() > 0 {
        lemma_connection_count(nodes.drop_last());
    }
}

/// The instruction stream of a whole document.
pub open spec fn document_steps(doc: SceneDoc) -> Seq<StepView> {
    header_steps() + global_settings_steps() + definitions_steps(
        doc.meshes@.len() as int,
        doc.nodes@.len() as int,
    ) + seq![StepView::BeginNode { name: "Objects"@ }] + geometries_steps(doc.meshes@)
        + models_steps(doc.nodes@) + seq![StepView::EndNode] + seq![
        StepView::BeginNode { name: "Connections"@ },
    ] + connections_steps(doc.nodes@) + seq![StepView::EndNode]
}

/// A mesh whose flattened buffers stay within the destination format's
/// machine range.
pub open spec fn mesh_emittable(m: Mesh) -> bool {
    buffers_within(m.primitives@, i32::MAX as int)
}

/// A document the emitter can render: the object count fits the definitions
/// attribute, every mesh's buffers stay in range, and every mesh reference
/// points at a mesh of the document.
pub open spec fn doc_emittable(doc: SceneDoc) -> bool {
    &&& doc.meshes@.len() + doc.nodes@.len() <= i32::MAX
    &&& forall|i: int| 0 <= i < doc.meshes@.len() ==> mesh_emittable(#[trigger] doc.meshes@[i])
    &&& forall|j: int|
        0 <= j < doc.nodes@.len() ==> (#[trigger] doc.nodes@[j].mesh matches Some(mi) ==> mi
            < doc.meshes@.len())
}

/// Append the geometry object of one mesh.
fn emit_geometry(out: &mut Vec<FbxStep>, m: &Mesh, index: usize)
    requires
        mesh_emittable(*m),
        index + 1 <= i32::MAX,
    ensures
        steps_view(final(out)@) == steps_view(old(out)@) + geometry_steps(*m, index as int),
{
    proof {
        lemma_flat_indices_bound(m.primitives@, i32::MAX as int);
    }
    let flat = flatten_primitives(&m.primitives);
    proof {
        assert forall|k: int| 0 <= k < flat.indices@.len() implies #[trigger] flat.indices@[k]
            <= i32::MAX by {
            assert(u32s_as_ints(flat.indices@)[k] == flat.indices@[k] as int);
        }
    }
    let encoded = encode_polygon_indices(&flat.indices);
    let id = mesh_object_id(index);
    let name = geometry_name(&m.name);
    push_begin(out, "Geometry");
    push_step(out, FbxStep::AttrI64 { value: id });
    push_step(out, FbxStep::AttrStr { value: name });
    push_str_attr(out, "Mesh");
    push_begin(out, "Vertices");
    push_step(out, FbxStep::AttrF64BitsArr { values: flat.positions });
    push_step(out, FbxStep::EndNode);
    push_begin(out, "PolygonVertexIndex");
    push_step(out, FbxStep::AttrI32Arr { values: encoded });
    push_step(out, FbxStep::EndNode);
    push_step(out, FbxStep::EndNode);
    proof {
        assert(steps_view(out@) =~= steps_view(old(out)@) + geometry_steps(*m, index as int));
    }
}

/// Append the model object of one scene node.
fn emit_model(out: &mut Vec<FbxStep>, n: &SceneNode, index: usize)
    requires
        index + 1 <= i32::MAX,
    ensures
        steps_view(final(out)@) == steps_view(old(out)@) + model_steps(*n, index as int),
{
    let id = node_object_id(index);
    let name = model_name(&n.name);
    push_begin(out, "Model");
    push_step(out, FbxStep::AttrI64 { value: id });
    push_step(out, FbxStep::AttrStr { value: name });
    push_str_attr(out, "Mesh");
    push_step(out, FbxStep::EndNode);
    proof {
        assert(steps_view(out@) =~= steps_view(old(out)@) + model_steps(*n, index as int));
    }
}

/// Append the connection record of one scene node, if it references a mesh.
fn emit_connection(out: &mut Vec<FbxStep>, n: &SceneNode, index: usize)
    requires
        index + 1 <= i32::MAX,
        n.mesh matches Some(mi) ==> mi + 1 <= i32::MAX,
    ensures
        steps_view(final(out)@) == steps_view(old(out)@) + connection_steps(*n, index as int),
{
    match &n.mesh {
        Some(mi) => {
            let mesh_id = mesh_object_id(*mi);
            let node_id = node_object_id(index);
            push_begin(out, "C");
            push_str_attr(out, "OO");
            push_step(out, FbxStep::AttrI64 { value: mesh_id });
            push_step(out, FbxStep::AttrI64 { value: node_id });
            push_step(out, FbxStep::EndNode);
            proof {
                assert(steps_view(out@) =~= steps_view(old(out)@) + connection_steps(
                    *n,
                    index as int,
                ));
            }
        },
        None => {
            proof {
                assert(steps_view(out@) =~= steps_view(old(out)@) + connection_steps(
                    *n,
                    index as int,
                ));
            }
        },
    }
}

proof fn lemma_geometries_prefix_step(meshes: Seq<Mesh>, i: int)
    requires
        0 <= i < meshes.len(),
    ensures
        geometries_steps(meshes.take(i + 1)) == geometries_steps(meshes.take(i)) + geometry_steps(
            meshes[i],
            i,
        ),
{
    assert(meshes.take(i + 1).drop_last() =~= meshes.take(i));
    assert(meshes.take(i + 1).last() == meshes[i]);
}

proof fn lemma_models_prefix_step(nodes: Seq<SceneNode>, i: int)
    requires
        0 <= i < nodes.len(),
    ensures
        models_steps(nodes.take(i + 1)) == models_steps(nodes.take(i)) + model_steps(nodes[i], i),
{
    assert(nodes.take(i + 1).drop_last() =~= nodes.take(i));
    assert(nodes.take(i + 1).last() == nodes[i]);
}

proof fn lemma_connections_prefix_step(nodes: Seq<SceneNode>, i: int)
    requires
        0 <= i < nodes.len(),
    ensures
        connections_steps(nodes.take(i + 1)) == connections_steps(nodes.take(i))
            + connection_steps(nodes[i], i),
{
    assert(nodes.take(i + 1).drop_last() =~= nodes.take(i));
    assert(nodes.take(i + 1).last() == nodes[i]);
}

/// Render a whole document as its instruction stream.
pub fn emit_document(doc: &SceneDoc) -> (r: Vec<FbxStep>)
    requires
        doc_emittable(*doc),
    ensures
        steps_view(r@) == document_steps(*doc),
{
    let mut out: Vec<FbxStep> = Vec::new();
    assert(steps_view(out@) =~= Seq::<StepView>::empty());
    emit_header(&mut out);
    emit_global_settings(&mut out);
    emit_definitions(&mut out, doc.meshes.len(), doc.nodes.len());
    push_begin(&mut out, "Objects");
    let ghost before_geometries = steps_view(out@);
    let mesh_count = doc.meshes.len();
    assert(doc.meshes@.take(0) =~= Seq::<Mesh>::empty());
    for i in 0..mesh_count
        invariant
            mesh_count == doc.meshes@.len(),
            doc_emittable(*doc),
            steps_view(out@) == before_geometries + geometries_steps(doc.meshes@.take(i as int)),
    {
        proof {
            lemma_geometries_prefix_step(doc.meshes@, i as int);
        }
        emit_geometry(&mut out, &doc.meshes[i], i);
    }
    proof {
        assert(doc.meshes@.take(mesh_count as int) =~= doc.meshes@);
    }
    let ghost before_models = steps_view(out@);
    let node_count = doc.nodes.len();
    assert(doc.nodes@.take(0) =~= Seq::<SceneNode>::empty());
    for i in 0..node_count
        invariant
            node_count == doc.nodes@.len(),
            doc_emittable(*doc),
            steps_view(out@) == before_models + models_steps(doc.nodes@.take(i as int)),
    {
        proof {
            lemma_models_prefix_step(doc.nodes@, i as int);
        }
        emit_model(&mut out, &doc.nodes[i], i);
    }
    proof {
        assert(doc.nodes@.take(node_count as int) =~= doc.nodes@);
    }
    push_step(&mut out, FbxStep::EndNode);
    push_begin(&mut out, "Connections");
    let ghost before_connections = steps_view(out@);
    for i in 0..node_count
        invariant
            node_count == doc.nodes@.len(),
            doc_emittable(*doc),
            steps_view(out@) == before_connections + connections_steps(doc.nodes@.take(i as int)),
    {
        proof {
            lemma_connections_prefix_step(doc.nodes@, i as int);
        }
        emit_connection(&mut out, &doc.nodes[i], i);
    }
    proof {
        assert(doc.nodes@.take(node_count as int) =~= doc.nodes@);
    }
    push_step(&mut out, FbxStep::EndNode);
    proof {
        assert(steps_view(out@) =~= document_steps(*doc));
    }
    out
}

/// Decide whether one mesh's flattened buffers stay within range.
fn check_mesh(m: &Mesh) -> (r: bool)
    ensures
        r == mesh_emittable(*m),
{
    let prims = &m.primitives;
    let n = prims.len();
    let mut voff: u64 = 0;
    assert(prims@.take(0) =~= Seq::<crate::scene::Primitive>::empty());
    for i in 0..n
        invariant
            prims@ == m.primitives@,
            n == prims@.len(),
            voff == total_vertex_count(prims@.take(i as int)),
            voff <= u32::MAX,
            forall|a: int, b: int|
                0 <= a < i && 0 <= b < prims@[a].indices@.len()
                    ==> #[trigger] prims@[a].indices@[b] + total_vertex_count(prims@.take(a))
                        <= i32::MAX,
    {
        let p = &prims[i];
        let q = p.indices.len();
        for j in 0..q
            invariant
                prims@ == m.primitives@,
                q == p.indices@.len(),
                i < prims@.len(),
                *p == prims@[i as int],
                voff == total_vertex_count(prims@.take(i as int)),
                voff <= u32::MAX,
                forall|b: int|
                    0 <= b < j ==> #[trigger] prims@[i as int].indices@[b] + total_vertex_count(
                        prims@.take(i as int),
                    ) <= i32::MAX,
        {
            let idx = p.indices[j];
            if idx as u64 + voff > i32::MAX as u64 {
                proof {
                    if buffers_within(m.primitives@, i32::MAX as int) {
                        assert(prims@[i as int].indices@[j as int] + total_vertex_count(
                            prims@.take(i as int),
                        ) <= i32::MAX);
                    }
                }
                return false;
            }
        }
        proof {
            crate::geometry::lemma_flat_prefix_step(prims@, i as int);
        }
        let added = p.positions.len();
        if added as u64 > u32::MAX as u64 - voff {
            proof {
                assert(total_vertex_count(prims@.take(i as int + 1)) > u32::MAX);
                crate::geometry::lemma_vertex_prefix_monotone(prims@, i as int + 1);
                assert(total_vertex_count(prims@) > u32::MAX);
            }
            return false;
        }
        voff = voff + added as u64;
        proof {
            assert forall|a: int, b: int|
                0 <= a < i + 1 && 0 <= b < prims@[a].indices@.len() implies #[trigger] prims@[a]
                .indices@[b] + total_vertex_count(prims@.take(a)) <= i32::MAX by {
                if a == i as int {
                    assert(prims@[a] == prims@[i as int]);
                }
            }
        }
    }
    proof {
        assert(prims@.take(n as int) =~= prims@);
    }
    true
}

/// Decide whether the emitter can render a document.
pub fn check_document(doc: &SceneDoc) -> (r: bool)
    ensures
        r == doc_emittable(*doc),
{
    let mesh_count = doc.meshes.len();
    let node_count = doc.nodes.len();
    if mesh_count > i32::MAX as usize || node_count > i32::MAX as usize - mesh_count {
        return false;
    }
    let mut i: usize = 0;
    while i < mesh_count
        invariant
            mesh_count == doc.meshes@.len(),
            i <= mesh_count,
            forall|a: int| 0 <= a < i ==> mesh_emittable(#[trigger] doc.meshes@[a]),
        decreases mesh_count - i,
    {
        if !check_mesh(&doc.meshes[i]) {
            return false;
        }
        i = i + 1;
    }
    let mut j: usize = 0;
    while j < node_count
        invariant
            node_count == doc.nodes@.len(),
            mesh_count == doc.meshes@.len(),
            j <= node_count,
            forall|a: int| 0 <= a < mesh_count ==> mesh_emittable(#[trigger] doc.meshes@[a]),
            forall|a: int|
                0 <= a < j ==> (#[trigger] doc.nodes@[a].mesh matches Some(mi) ==> mi
                    < doc.meshes@.len()),
        decreases node_count - j,
    {
        match &doc.nodes[j].mesh {
            Some(mi) => {
                if *mi >= mesh_count {
                    return false;
                }
            },
            None => {},
        }
        j = j + 1;
    }
    true
}

/// Convert a document to its instruction stream, or report that it is out of
/// the emitter's range. Returns the stream exactly when the document is
/// emittable.
pub fn convert_document(doc: &SceneDoc) -> (r: Option<Vec<FbxStep>>)
    ensures
        r is Some <==> doc_emittable(*doc),
        r matches Some(steps) ==> steps_view(steps@) == document_steps(*doc),
{
    if check_document(doc) {
        Some(emit_document(doc))
    } else {
        None
    }
}

} // verus!
