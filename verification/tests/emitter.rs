use glb2fbx::emit::{convert_document, FbxStep};
use glb2fbx::geometry::{encode_polygon_indices, flatten_primitives};
use glb2fbx::ids::{mesh_object_id, node_object_id};
use glb2fbx::scene::{Mesh, Primitive, SceneDoc, SceneNode, Vertex};

fn vertex(x: f64, y: f64, z: f64) -> Vertex {
    Vertex { x_bits: x.to_bits(), y_bits: y.to_bits(), z_bits: z.to_bits() }
}

fn cube_mesh() -> Mesh {
    let mut positions = Vec::new();
    for i in 0..8u32 {
        let x = if i & 1 == 0 { -1.0 } else { 1.0 };
        let y = if i & 2 == 0 { -1.0 } else { 1.0 };
        let z = if i & 4 == 0 { -1.0 } else { 1.0 };
        positions.push(vertex(x, y, z));
    }
    let indices: Vec<u32> = vec![
        0, 1, 2, 2, 1, 3, 4, 6, 5, 5, 6, 7, 0, 4, 1, 1, 4, 5, 2, 3, 6, 6, 3, 7, 0, 2, 4, 4, 2, 6,
        1, 5, 3, 3, 5, 7,
    ];
    Mesh {
        name: Some(String::from("Cube")),
        primitives: vec![Primitive { positions, indices }],
    }
}

#[test]
fn two_primitive_mesh_flattens_with_offsets() {
    let p1 = Primitive {
        positions: vec![vertex(0.0, 0.0, 0.0), vertex(1.0, 0.0, 0.0), vertex(0.0, 1.0, 0.0)],
        indices: vec![0, 1, 2],
    };
    let p2 = Primitive {
        positions: vec![vertex(0.0, 0.0, 1.0), vertex(1.0, 0.0, 1.0)],
        indices: vec![0, 1, 1],
    };
    let flat = flatten_primitives(&vec![p1, p2]);
    assert_eq!(flat.positions.len(), 3 * (3 + 2));
    assert_eq!(flat.indices, vec![0, 1, 2, 3, 4, 4]);
    assert_eq!(flat.positions[9], (0.0f64).to_bits());
    assert_eq!(flat.positions[11], (1.0f64).to_bits());
}

#[test]
fn triangle_termination_encodes_every_third_index() {
    let encoded = encode_polygon_indices(&vec![0, 1, 2, 2, 1, 3]);
    assert_eq!(encoded, vec![0, 1, -3, 2, 1, -4]);
}

#[test]
fn empty_index_buffer_encodes_to_nothing() {
    let encoded = encode_polygon_indices(&vec![]);
    assert!(encoded.is_empty());
}

#[test]
fn synthetic_ids_are_scaled_indices() {
    assert_eq!(mesh_object_id(0), 10000);
    assert_eq!(mesh_object_id(2), 30000);
    assert_eq!(node_object_id(0), 20000);
    assert_eq!(node_object_id(2), 60000);
}

#[test]
fn connection_records_match_nodes_with_meshes() {
    let doc = SceneDoc {
        meshes: vec![cube_mesh()],
        nodes: vec![
            SceneNode { name: Some(String::from("A")), mesh: Some(0) },
            SceneNode { name: None, mesh: None },
            SceneNode { name: Some(String::from("B")), mesh: Some(0) },
        ],
    };
    let steps = convert_document(&doc).expect("document is emittable");
    let connections = count_connection_records(&steps);
    assert_eq!(connections, 2);
}

#[test]
fn cube_document_emits_expected_objects() {
    let doc = SceneDoc {
        meshes: vec![cube_mesh()],
        nodes: vec![SceneNode { name: Some(String::from("CubeNode")), mesh: Some(0) }],
    };
    let steps = convert_document(&doc).expect("document is emittable");

    let mut geometry_names = Vec::new();
    let mut model_names = Vec::new();
    for (i, step) in steps.iter().enumerate() {
        if let FbxStep::BeginNode { name } = step {
            if name == "Geometry" {
                if let FbxStep::AttrStr { value } = &steps[i + 2] {
                    geometry_names.push(value.clone());
                }
            }
            if name == "Model" {
                if let FbxStep::AttrStr { value } = &steps[i + 2] {
                    model_names.push(value.clone());
                }
            }
        }
    }
    assert_eq!(geometry_names, vec![String::from("Geometry::Cube")]);
    assert_eq!(model_names, vec![String::from("Model::CubeNode")]);

    let mut connections = Vec::new();
    for (i, step) in steps.iter().enumerate() {
        if let FbxStep::BeginNode { name } = step {
            if name == "C" {
                let from = match &steps[i + 2] {
                    FbxStep::AttrI64 { value } => *value,
                    _ => panic!("expected source identifier"),
                };
                let to = match &steps[i + 3] {
                    FbxStep::AttrI64 { value } => *value,
                    _ => panic!("expected target identifier"),
                };
                connections.push((from, to));
            }
        }
    }
    assert_eq!(connections, vec![(10000, 20000)]);

    let vertices = find_array_after(&steps, "Vertices");
    assert_eq!(vertices.len(), 24);
    let indices = find_indices_after(&steps, "PolygonVertexIndex");
    assert_eq!(indices.len(), 36);
    for (k, value) in indices.iter().enumerate() {
        if (k + 1) % 3 == 0 {
            assert!(*value < 0, "every third index is termination-encoded");
        } else {
            assert!(*value >= 0);
        }
    }
    assert_eq!(indices[2], -3);
}

#[test]
fn unnamed_mesh_and_node_get_default_names() {
    let doc = SceneDoc {
        meshes: vec![Mesh { name: None, primitives: vec![] }],
        nodes: vec![SceneNode { name: None, mesh: None }],
    };
    let steps = convert_document(&doc).expect("document is emittable");
    let mut found_geometry = false;
    let mut found_model = false;
    for (i, step) in steps.iter().enumerate() {
        if let FbxStep::BeginNode { name } = step {
            if name == "Geometry" {
                if let FbxStep::AttrStr { value } = &steps[i + 2] {
                    assert_eq!(value, "Geometry::Mesh");
                    found_geometry = true;
                }
            }
            if name == "Model" {
                if let FbxStep::AttrStr { value } = &steps[i + 2] {
                    assert_eq!(value, "Model::Node");
                    found_model = true;
                }
            }
        }
    }
    assert!(found_geometry);
    assert!(found_model);
}

#[test]
fn header_and_settings_open_the_stream() {
    let doc = SceneDoc { meshes: vec![], nodes: vec![] };
    let steps = convert_document(&doc).expect("document is emittable");
    match &steps[0] {
        FbxStep::BeginNode { name } => assert_eq!(name, "FBXHeaderExtension"),
        _ => panic!("stream opens with the header node"),
    }
    match &steps[1] {
        FbxStep::AttrI32 { value } => assert_eq!(*value, 1003),
        _ => panic!("header carries the format-revision attribute"),
    }
    match &steps[3] {
        FbxStep::BeginNode { name } => assert_eq!(name, "GlobalSettings"),
        _ => panic!("global settings follow the header"),
    }
    let up_axis = find_property(&steps, "UpAxis");
    assert_eq!(up_axis, 1);
    let front_axis = find_property(&steps, "FrontAxis");
    assert_eq!(front_axis, 2);
    let coord_axis = find_property(&steps, "CoordAxis");
    assert_eq!(coord_axis, 0);
    let original_up = find_property(&steps, "OriginalUpAxis");
    assert_eq!(original_up, -1);
    let scale = find_double_property(&steps, "UnitScaleFactor");
    assert_eq!(scale, 1.0);
}

#[test]
fn definitions_count_sums_meshes_and_nodes() {
    let doc = SceneDoc {
        meshes: vec![cube_mesh(), Mesh { name: None, primitives: vec![] }],
        nodes: vec![SceneNode { name: None, mesh: None }],
    };
    let steps = convert_document(&doc).expect("document is emittable");
    let mut found = None;
    for (i, step) in steps.iter().enumerate() {
        if let FbxStep::BeginNode { name } = step {
            if name == "Definitions" {
                if let FbxStep::AttrI32 { value } = &steps[i + 1] {
                    found = Some(*value);
                }
            }
        }
    }
    assert_eq!(found, Some(3));
}

#[test]
fn dangling_mesh_reference_is_rejected() {
    let doc = SceneDoc {
        meshes: vec![],
        nodes: vec![SceneNode { name: None, mesh: Some(0) }],
    };
    assert!(convert_document(&doc).is_none());
}

fn count_connection_records(steps: &[FbxStep]) -> usize {
    steps
        .iter()
        .filter(|step| matches!(step, FbxStep::BeginNode { name } if name == "C"))
        .count()
}

fn find_array_after(steps: &[FbxStep], node: &str) -> Vec<u64> {
    for (i, step) in steps.iter().enumerate() {
        if let FbxStep::BeginNode { name } = step {
            if name == node {
                if let FbxStep::AttrF64BitsArr { values } = &steps[i + 1] {
                    return values.clone();
                }
            }
        }
    }
    panic!("node {} with an array attribute not found", node);
}

fn find_indices_after(steps: &[FbxStep], node: &str) -> Vec<i32> {
    for (i, step) in steps.iter().enumerate() {
        if let FbxStep::BeginNode { name } = step {
            if name == node {
                if let FbxStep::AttrI32Arr { values } = &steps[i + 1] {
                    return values.clone();
                }
            }
        }
    }
    panic!("node {} with an index array not found", node);
}

fn find_property(steps: &[FbxStep], property: &str) -> i32 {
    for (i, step) in steps.iter().enumerate() {
        if let FbxStep::AttrStr { value } = step {
            if value == property {
                if let FbxStep::AttrI32 { value } = &steps[i + 4] {
                    return *value;
                }
            }
        }
    }
    panic!("property {} not found", property);
}

fn find_double_property(steps: &[FbxStep], property: &str) -> f64 {
    for (i, step) in steps.iter().enumerate() {
        if let FbxStep::AttrStr { value } = step {
            if value == property {
                if let FbxStep::AttrF64Bits { bits } = &steps[i + 4] {
                    return f64::from_bits(*bits);
                }
            }
        }
    }
    panic!("property {} not found", property);
}
