use std::collections::HashMap;

use gltf_engine::frame::Visit;
use gltf_engine::mesh::{IndexFormat, Mesh, MeshPrimitive, MeshSourceInfo, PrimitiveSourceInfo};
use gltf_engine::model::{
    ImportedGltf, Material, MaterialSourceInfo, Node, NodeSourceInfo, CAMERA_UNIFORM_SIZE,
    MATERIAL_UNIFORM_SIZE, NODE_UNIFORM_SIZE,
};
use gltf_engine::render::{
    build_draw_list, vertex_buffer_layouts, DrawCall, VertexFormat, CAMERA_BIND_GROUP,
    MATERIAL_BIND_GROUP, NODE_BIND_GROUP,
};
use gltf_engine::transform::{NodeTransform, Vector3, Vector4};

fn drawable(id: u128, count: usize, format: IndexFormat, material: Option<u128>) -> Option<MeshPrimitive> {
    Some(MeshPrimitive {
        id,
        position_buffer: Vec::new(),
        normal_buffer: Vec::new(),
        tex_coord_buffer: Vec::new(),
        index_buffer: Vec::new(),
        num_indices: count,
        index_format: format,
        material_id: material,
        source_info: PrimitiveSourceInfo::Gltf { index: 0 },
    })
}

fn meshed_node(id: u128, mesh: Option<u128>) -> Node {
    Node {
        id,
        transform: NodeTransform::identity(),
        children: Vec::new(),
        mesh_id: mesh,
        source_info: NodeSourceInfo::SomethingElse,
    }
}

fn painted_scene() -> ImportedGltf {
    let mut materials = HashMap::new();
    materials.insert(
        70u128,
        Material {
            id: 70,
            base_color_factor: Vector4 { x: 0, y: 0, z: 0, w: 0 },
            emissive_factor: Vector3 { x: 0, y: 0, z: 0 },
            source_info: MaterialSourceInfo::Gltf { index: 0 },
        },
    );
    let mut meshes = HashMap::new();
    meshes.insert(
        50u128,
        Mesh {
            id: 50,
            primitives: vec![
                drawable(51, 3, IndexFormat::Uint16, Some(70)),
                None,
                drawable(53, 6, IndexFormat::Uint32, None),
                drawable(54, 9, IndexFormat::Uint32, Some(71)),
                drawable(55, 12, IndexFormat::Uint32, Some(70)),
            ],
            source_info: MeshSourceInfo::Gltf { index: 0 },
        },
    );
    let mut nodes = HashMap::new();
    nodes.insert(1u128, meshed_node(1, Some(50)));
    nodes.insert(2u128, meshed_node(2, None));
    nodes.insert(3u128, meshed_node(3, Some(59)));
    nodes.insert(4u128, meshed_node(4, Some(50)));
    ImportedGltf { default_scene_id: None, scenes: HashMap::new(), nodes, meshes, materials }
}

fn visits(ids: &[u128]) -> Vec<Visit> {
    ids.iter().map(|id| Visit { node: *id, parent: None }).collect()
}

#[test]
fn one_draw_per_primitive_with_a_material() {
    let draws = build_draw_list(&painted_scene(), &visits(&[1]));
    assert_eq!(
        draws,
        vec![
            DrawCall {
                node: 1,
                mesh: 50,
                primitive: 0,
                material: 70,
                index_count: 3,
                index_format: IndexFormat::Uint16,
            },
            DrawCall {
                node: 1,
                mesh: 50,
                primitive: 4,
                material: 70,
                index_count: 12,
                index_format: IndexFormat::Uint32,
            },
        ]
    );
}

#[test]
fn nodes_without_mesh_draw_nothing() {
    let g = painted_scene();
    assert!(build_draw_list(&g, &visits(&[2])).is_empty());
    assert!(build_draw_list(&g, &visits(&[3])).is_empty());
    assert!(build_draw_list(&g, &visits(&[9])).is_empty());
    assert!(build_draw_list(&g, &visits(&[])).is_empty());
}

#[test]
fn draws_follow_the_visible_list() {
    let draws = build_draw_list(&painted_scene(), &visits(&[4, 2, 1]));
    let nodes: Vec<u128> = draws.iter().map(|d| d.node).collect();
    assert_eq!(nodes, vec![4, 4, 1, 1]);
    let places: Vec<usize> = draws.iter().map(|d| d.primitive).collect();
    assert_eq!(places, vec![0, 4, 0, 4]);
}

#[test]
fn vertex_layout_is_three_buffers_at_fixed_slots() {
    let layouts = vertex_buffer_layouts();
    assert_eq!(layouts.len(), 3);
    assert_eq!(
        layouts.iter().map(|l| l.slot).collect::<Vec<u32>>(),
        vec![0, 1, 2]
    );
    assert_eq!(
        layouts.iter().map(|l| l.array_stride).collect::<Vec<u64>>(),
        vec![12, 12, 8]
    );
    assert_eq!(layouts[0].format, VertexFormat::Float32x3);
    assert_eq!(layouts[1].format, VertexFormat::Float32x3);
    assert_eq!(layouts[2].format, VertexFormat::Float32x2);
}

#[test]
fn binding_slots_and_uniform_sizes() {
    assert_eq!((MATERIAL_BIND_GROUP, CAMERA_BIND_GROUP, NODE_BIND_GROUP), (0, 1, 2));
    assert_eq!(NODE_UNIFORM_SIZE, 2 * 16 * 4);
    assert_eq!(MATERIAL_UNIFORM_SIZE, (4 + 3 + 1) * 4);
    assert_eq!(CAMERA_UNIFORM_SIZE, (4 + 4 + 16) * 4);
}
