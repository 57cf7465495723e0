use gltf_engine::assemble::{assemble, import_gltf};
use gltf_engine::diagnostics::{import_warnings, ImportWarning};
use gltf_engine::engine::Engine;
use gltf_engine::error::ImportError;
use gltf_engine::identity::{
    fresh_identities, IdentityPlan, IDENTITY_KIND_MASK, IDENTITY_KIND_RANDOM,
};
use gltf_engine::mesh::{IndexFormat, MeshSourceInfo};
use gltf_engine::model::{MaterialSourceInfo, NodeSourceInfo, SceneSourceInfo};
use gltf_engine::source::{
    Accessor, BufferView, Document, GltfRoot, Mode, SourceMaterial, SourceMesh, SourceNode,
    SourcePrimitive, SourceScene,
};
use gltf_engine::transform::{NodeTransform, Vector3, Vector4};

fn white() -> SourceMaterial {
    let one = 1.0f32.to_bits();
    SourceMaterial {
        index: Some(0),
        base_color_factor: Vector4 { x: one, y: one, z: one, w: one },
        emissive_factor: Vector3 { x: 0, y: 0, z: 0 },
        double_sided: false,
    }
}

fn block(offset: usize, count: usize, size: usize) -> Option<Accessor> {
    Some(Accessor {
        view: Some(BufferView { buffer: 0, offset, stride: None }),
        offset: 0,
        count,
        size,
    })
}

fn triangle(index: usize, mode: Mode) -> SourcePrimitive {
    SourcePrimitive {
        index,
        mode,
        indices: block(72, 3, 2),
        positions: block(0, 3, 12),
        normals: block(36, 3, 12),
        tex_coords: None,
        material: Some(0),
    }
}

fn triangle_bytes() -> Vec<u8> {
    let mut bytes: Vec<u8> = Vec::new();
    for p in [[0.0f32, 0.0, 0.0], [1.0, 0.0, 0.0], [0.0, 1.0, 0.0]] {
        for c in p {
            bytes.extend_from_slice(&c.to_le_bytes());
        }
    }
    for _ in 0..3 {
        for c in [0.0f32, 0.0, 1.0] {
            bytes.extend_from_slice(&c.to_le_bytes());
        }
    }
    for i in [0u16, 1, 2] {
        bytes.extend_from_slice(&i.to_le_bytes());
    }
    bytes
}

fn plain_node(index: usize, children: Vec<usize>, mesh: Option<usize>) -> SourceNode {
    SourceNode { index, transform: NodeTransform::identity(), children, mesh }
}

/// One scene, one root node with the identity transform, one mesh with one
/// triangle, one white material.
fn single_triangle() -> GltfRoot {
    GltfRoot {
        document: Document {
            materials: vec![white()],
            meshes: vec![SourceMesh { index: 0, primitives: vec![triangle(0, Mode::Triangles)] }],
            nodes: vec![plain_node(0, vec![], Some(0))],
            scenes: vec![SourceScene { index: 0, nodes: vec![0] }],
            default_scene: Some(0),
        },
        buffers: vec![triangle_bytes()],
    }
}

fn single_triangle_plan() -> IdentityPlan {
    IdentityPlan {
        materials: vec![10],
        meshes: vec![20],
        primitives: vec![vec![21]],
        nodes: vec![30],
        scenes: vec![40],
    }
}

/// Three nodes in a chain whose first node names the later ones, two
/// scenes, no meshes.
fn chain() -> GltfRoot {
    GltfRoot {
        document: Document {
            materials: vec![],
            meshes: vec![],
            nodes: vec![
                plain_node(0, vec![2, 1], None),
                plain_node(1, vec![], None),
                plain_node(2, vec![1], None),
            ],
            scenes: vec![
                SourceScene { index: 0, nodes: vec![0] },
                SourceScene { index: 1, nodes: vec![2, 1] },
            ],
            default_scene: None,
        },
        buffers: vec![],
    }
}

fn chain_plan() -> IdentityPlan {
    IdentityPlan {
        materials: vec![],
        meshes: vec![],
        primitives: vec![],
        nodes: vec![100, 101, 102],
        scenes: vec![200, 201],
    }
}

#[test]
fn single_triangle_scene_is_shown_with_one_draw() {
    let g = assemble(&single_triangle(), &single_triangle_plan()).unwrap();
    assert_eq!(g.materials.len(), 1);
    assert_eq!(g.meshes.len(), 1);
    assert_eq!(g.nodes.len(), 1);
    assert_eq!(g.scenes.len(), 1);
    let one = 1.0f32.to_bits();
    assert_eq!(g.materials[&10].base_color_factor, Vector4 { x: one, y: one, z: one, w: one });
    let primitive = g.meshes[&20].primitives[0].as_ref().unwrap();
    assert_eq!(primitive.tex_coord_buffer, vec![0u8; 24]);
    let texcoords: Vec<f32> = primitive
        .tex_coord_buffer
        .chunks(4)
        .map(|c| f32::from_ne_bytes([c[0], c[1], c[2], c[3]]))
        .collect();
    assert_eq!(texcoords, vec![0.0f32; 6]);

    let mut engine = Engine::new(g, 100, 100);
    engine.update(0);
    assert_eq!(engine.pending_nodes.len(), 1);
    assert_eq!(engine.pending_nodes[0].node, 30);
    assert_eq!(engine.pending_nodes[0].parent, None);
    let draws = engine.render();
    assert_eq!(draws.len(), 1);
    assert_eq!(draws[0].index_count, 3);
    assert_eq!(draws[0].index_format, IndexFormat::Uint16);
    assert_eq!(draws[0].node, 30);
    assert_eq!(draws[0].mesh, 20);
    assert_eq!(draws[0].primitive, 0);
    assert_eq!(draws[0].material, 10);
}

#[test]
fn provenance_is_the_source_index_not_the_identity() {
    let mut root = single_triangle();
    root.document.meshes[0].index = 0;
    let g = assemble(&root, &single_triangle_plan()).unwrap();
    assert_eq!(g.materials[&10].source_info, MaterialSourceInfo::Gltf { index: 0 });
    assert_eq!(g.meshes[&20].source_info, MeshSourceInfo::Gltf { index: 0 });
    assert_eq!(g.nodes[&30].source_info, NodeSourceInfo::Gltf { index: 0 });
    assert_eq!(g.scenes[&40].source_info, SceneSourceInfo::Gltf { index: 0 });
    assert_eq!(g.nodes[&30].gltf_index(), 0);
    assert_eq!(g.scenes[&40].gltf_index(), 0);

    let g = assemble(&chain(), &chain_plan()).unwrap();
    for (position, id) in [100u128, 101, 102].iter().enumerate() {
        assert_eq!(g.nodes[id].id, *id);
        assert_eq!(g.nodes[id].gltf_index(), position);
    }
    for (position, id) in [200u128, 201].iter().enumerate() {
        assert_eq!(g.scenes[id].gltf_index(), position);
    }
}

#[test]
fn same_plan_gives_the_same_identities() {
    let first = assemble(&chain(), &chain_plan()).unwrap();
    let second = assemble(&chain(), &chain_plan()).unwrap();
    let mut a: Vec<u128> = first.nodes.keys().copied().collect();
    let mut b: Vec<u128> = second.nodes.keys().copied().collect();
    a.sort();
    b.sort();
    assert_eq!(a, vec![100, 101, 102]);
    assert_eq!(a, b);
    assert_eq!(first.default_scene_id, second.default_scene_id);
    for id in a {
        assert_eq!(first.nodes[&id].children, second.nodes[&id].children);
    }
}

#[test]
fn random_imports_differ_in_identity_and_agree_in_provenance() {
    let first = import_gltf(&chain()).unwrap();
    let second = import_gltf(&chain()).unwrap();
    assert_eq!(first.nodes.len(), 3);
    assert_eq!(second.nodes.len(), 3);
    assert!(first.nodes.keys().all(|id| !second.nodes.contains_key(id)));
    let mut a: Vec<usize> = first.nodes.values().map(|n| n.gltf_index()).collect();
    let mut b: Vec<usize> = second.nodes.values().map(|n| n.gltf_index()).collect();
    a.sort();
    b.sort();
    assert_eq!(a, vec![0, 1, 2]);
    assert_eq!(a, b);
}

#[test]
fn drawn_identities_are_random_tokens() {
    let ids = fresh_identities(16);
    assert_eq!(ids.len(), 16);
    for id in &ids {
        assert_eq!(id & IDENTITY_KIND_MASK, IDENTITY_KIND_RANDOM);
        assert_eq!(uuid::Uuid::from_u128(*id).get_version_num(), 4);
    }
    for i in 0..ids.len() {
        for j in 0..i {
            assert_ne!(ids[i], ids[j]);
        }
    }
}

#[test]
fn drawn_plan_fits_the_document() {
    let root = single_triangle();
    let plan = IdentityPlan::draw(&root.document);
    assert!(plan.is_fit(&root.document));
    assert_eq!(plan.primitives.len(), 1);
    assert_eq!(plan.primitives[0].len(), 1);
    assert!(!plan.is_fit(&chain().document));
}

#[test]
fn children_may_come_later_in_the_document() {
    let g = assemble(&chain(), &chain_plan()).unwrap();
    assert_eq!(g.nodes[&100].children, vec![102, 101]);
    assert_eq!(g.nodes[&101].children, Vec::<u128>::new());
    assert_eq!(g.nodes[&102].children, vec![101]);
    assert_eq!(g.scenes[&200].nodes, vec![100]);
    assert_eq!(g.scenes[&201].nodes, vec![102, 101]);
}

#[test]
fn first_scene_is_the_default_where_none_is_declared() {
    let g = assemble(&chain(), &chain_plan()).unwrap();
    assert_eq!(g.default_scene_id, Some(200));
    assert_eq!(g.default_scene().unwrap().id, 200);
}

#[test]
fn declared_default_scene_is_kept() {
    let mut root = chain();
    root.document.default_scene = Some(1);
    let g = assemble(&root, &chain_plan()).unwrap();
    assert_eq!(g.default_scene_id, Some(201));
    assert_eq!(g.default_scene().unwrap().gltf_index(), 1);
}

#[test]
fn document_without_scenes_has_no_default() {
    let mut root = chain();
    root.document.scenes.clear();
    let mut plan = chain_plan();
    plan.scenes.clear();
    let g = assemble(&root, &plan).unwrap();
    assert_eq!(g.default_scene_id, None);
    assert!(g.default_scene().is_none());
}

#[test]
fn node_keeps_its_transform_and_names_its_mesh() {
    let mut root = single_triangle();
    let t = NodeTransform {
        position: Vector3 { x: 1.0f32.to_bits(), y: 2.0f32.to_bits(), z: 3.0f32.to_bits() },
        ..NodeTransform::identity()
    };
    root.document.nodes[0].transform = t;
    let g = assemble(&root, &single_triangle_plan()).unwrap();
    assert_eq!(g.nodes[&30].transform, t);
    assert_eq!(g.nodes[&30].mesh_id, Some(20));
}

#[test]
fn plan_that_does_not_fit_is_a_shortage() {
    let mut plan = single_triangle_plan();
    plan.nodes.push(31);
    assert_eq!(assemble(&single_triangle(), &plan).err(), Some(ImportError::IdentityShortage));
    let mut plan = single_triangle_plan();
    plan.primitives[0].clear();
    assert_eq!(assemble(&single_triangle(), &plan).err(), Some(ImportError::IdentityShortage));
}

#[test]
fn one_identity_for_two_nodes_is_a_collision() {
    let mut plan = chain_plan();
    plan.nodes = vec![100, 101, 100];
    assert_eq!(assemble(&chain(), &plan).err(), Some(ImportError::IdentityCollision));
    let mut plan = chain_plan();
    plan.scenes = vec![200, 200];
    assert_eq!(assemble(&chain(), &plan).err(), Some(ImportError::IdentityCollision));
}

#[test]
fn one_identity_for_two_kinds_is_a_collision() {
    let mut plan = chain_plan();
    plan.scenes = vec![100, 201];
    assert_eq!(assemble(&chain(), &plan).err(), Some(ImportError::IdentityCollision));

    let mut plan = single_triangle_plan();
    plan.meshes = vec![10];
    assert_eq!(assemble(&single_triangle(), &plan).err(), Some(ImportError::IdentityCollision));
    let mut plan = single_triangle_plan();
    plan.primitives = vec![vec![30]];
    assert_eq!(assemble(&single_triangle(), &plan).err(), Some(ImportError::IdentityCollision));
    let mut plan = single_triangle_plan();
    plan.scenes = vec![21];
    assert_eq!(assemble(&single_triangle(), &plan).err(), Some(ImportError::IdentityCollision));
}

#[test]
fn one_identity_for_two_primitives_is_a_collision() {
    let mut root = single_triangle();
    root.document.meshes = vec![
        SourceMesh { index: 0, primitives: vec![triangle(0, Mode::Triangles)] },
        SourceMesh {
            index: 1,
            primitives: vec![triangle(0, Mode::Lines), triangle(1, Mode::Triangles)],
        },
    ];
    let mut plan = single_triangle_plan();
    plan.meshes = vec![20, 25];
    plan.primitives = vec![vec![21], vec![22, 21]];
    assert!(!plan.is_distinct());
    assert_eq!(assemble(&root, &plan).err(), Some(ImportError::IdentityCollision));
    plan.primitives = vec![vec![21], vec![22, 22]];
    assert_eq!(assemble(&root, &plan).err(), Some(ImportError::IdentityCollision));
    plan.primitives = vec![vec![21], vec![22, 23]];
    assert!(plan.is_distinct());
    let g = assemble(&root, &plan).unwrap();
    assert_eq!(g.meshes[&25].primitives[1].as_ref().unwrap().id, 23);
}

#[test]
fn all_identities_of_a_scene_are_distinct() {
    let g = assemble(&single_triangle(), &single_triangle_plan()).unwrap();
    let mut all: Vec<u128> = Vec::new();
    all.extend(g.materials.keys());
    all.extend(g.meshes.keys());
    all.extend(g.nodes.keys());
    all.extend(g.scenes.keys());
    for mesh in g.meshes.values() {
        all.extend(mesh.primitives.iter().flatten().map(|p| p.id));
    }
    all.sort();
    assert_eq!(all, vec![10, 20, 21, 30, 40]);

    let plan = IdentityPlan::draw(&single_triangle().document);
    assert!(plan.is_distinct());
}

#[test]
fn collision_is_found_before_any_stage_fails() {
    let mut root = single_triangle();
    root.document.materials[0].index = None;
    let mut plan = single_triangle_plan();
    plan.scenes = vec![10];
    assert_eq!(assemble(&root, &plan).err(), Some(ImportError::IdentityCollision));
    plan.scenes.push(41);
    assert_eq!(assemble(&root, &plan).err(), Some(ImportError::IdentityShortage));
}

#[test]
fn material_without_index_ends_the_import() {
    let mut root = single_triangle();
    root.document.materials[0].index = None;
    assert_eq!(
        assemble(&root, &single_triangle_plan()).err(),
        Some(ImportError::MaterialWithoutIndex)
    );
}

#[test]
fn dangling_references_end_the_import() {
    let mut child = chain();
    child.document.nodes[1].children = vec![7];
    let mut mesh = chain();
    mesh.document.nodes[0].mesh = Some(0);
    let mut scene_root = chain();
    scene_root.document.scenes[1].nodes = vec![3];
    let mut default_scene = chain();
    default_scene.document.default_scene = Some(2);
    for root in [child, mesh, scene_root, default_scene] {
        assert_eq!(assemble(&root, &chain_plan()).err(), Some(ImportError::DanglingReference));
    }
}

#[test]
fn failing_primitive_ends_the_import() {
    let mut root = single_triangle();
    root.document.meshes[0].primitives[0].indices = block(72, 3, 1);
    assert_eq!(
        assemble(&root, &single_triangle_plan()).err(),
        Some(ImportError::UnsupportedIndexWidth)
    );
    let mut root = single_triangle();
    root.document.meshes[0].primitives[0].normals = None;
    assert_eq!(
        assemble(&root, &single_triangle_plan()).err(),
        Some(ImportError::MissingAttribute)
    );
}

#[test]
fn earlier_stage_fails_first() {
    let mut root = single_triangle();
    root.document.materials[0].index = None;
    root.document.meshes[0].primitives[0].normals = None;
    root.document.nodes[0].children = vec![9];
    assert_eq!(
        assemble(&root, &single_triangle_plan()).err(),
        Some(ImportError::MaterialWithoutIndex)
    );
    root.document.materials[0].index = Some(0);
    assert_eq!(
        assemble(&root, &single_triangle_plan()).err(),
        Some(ImportError::MissingAttribute)
    );
}

#[test]
fn lines_primitive_is_skipped_and_its_siblings_are_imported() {
    let mut root = single_triangle();
    root.document.meshes[0].primitives =
        vec![triangle(0, Mode::Triangles), triangle(1, Mode::Lines), triangle(2, Mode::Triangles)];
    let mut plan = single_triangle_plan();
    plan.primitives = vec![vec![21, 22, 23]];
    let g = assemble(&root, &plan).unwrap();
    let slots = &g.meshes[&20].primitives;
    assert_eq!(slots.len(), 3);
    assert!(slots[0].is_some());
    assert!(slots[1].is_none());
    assert!(slots[2].is_some());

    let mut engine = Engine::new(g, 100, 100);
    engine.update(0);
    let draws = engine.render();
    assert_eq!(draws.len(), 2);
    assert_eq!(draws[0].primitive, 0);
    assert_eq!(draws[1].primitive, 2);
}

#[test]
fn warnings_follow_the_order_of_the_import() {
    let mut root = single_triangle();
    assert_eq!(
        import_warnings(&root.document),
        vec![ImportWarning::SynthesizedTexCoords { mesh: 0, primitive: 0 }]
    );
    let mut shiny = white();
    shiny.double_sided = true;
    root.document.materials = vec![white(), shiny];
    let mut textured = triangle(2, Mode::Triangles);
    textured.tex_coords = block(0, 3, 8);
    root.document.meshes = vec![
        SourceMesh { index: 0, primitives: vec![] },
        SourceMesh {
            index: 1,
            primitives: vec![
                triangle(0, Mode::LineStrip),
                triangle(1, Mode::Triangles),
                textured,
            ],
        },
    ];
    assert_eq!(
        import_warnings(&root.document),
        vec![
            ImportWarning::DoubleSidedMaterial { material: 1 },
            ImportWarning::SkippedPrimitive { mesh: 1, primitive: 0 },
            ImportWarning::SynthesizedTexCoords { mesh: 1, primitive: 1 },
        ]
    );
    assert!(import_warnings(&chain().document).is_empty());
}
