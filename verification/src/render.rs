//! The fixed pipeline's vertex layout, and the list of draw calls of a
//! frame.

use vstd::prelude::*;
use std::collections::HashMap;
use crate::frame::Visit;
use crate::identity::Identity;
use crate::import::{POSITION_STRIDE, TEX_COORD_STRIDE};
use crate::mesh::{IndexFormat, Mesh, MeshPrimitive};
use crate::model::{ImportedGltf, Material};

verus! {

/// Binding slot of the material's binding set.
pub const MATERIAL_BIND_GROUP: u32 = 0;

/// Binding slot of the camera's binding set.
pub const CAMERA_BIND_GROUP: u32 = 1;

/// Binding slot of the node's binding set.
pub const NODE_BIND_GROUP: u32 = 2;

/// Format of one vertex attribute.
#[derive(Clone, Copy, Debug, PartialEq, Eq, Structural)]
pub enum VertexFormat {
    /// Two single-precision numbers.
    Float32x2,
    /// Three single-precision numbers.
    Float32x3,
}

/// Layout of one vertex buffer: a single attribute at offset zero, stepped
/// once per vertex.
#[derive(Clone, Copy, Debug, PartialEq, Eq, Structural)]
pub struct VertexBufferLayout {
    /// Slot that the buffer is bound at, and location of its attribute in
    /// the shader.
    pub slot: u32,
    pub array_stride: u64,
    pub format: VertexFormat,
}

/// The three vertex buffers of the pipeline: positions at slot 0, normals
/// at slot 1, texture coordinates at slot 2.
pub open spec fn spec_vertex_buffer_layouts() -> Seq<VertexBufferLayout> {
    seq![
        VertexBufferLayout { slot: 0, array_stride: 12, format: VertexFormat::Float32x3 },
        VertexBufferLayout { slot: 1, array_stride: 12, format: VertexFormat::Float32x3 },
        VertexBufferLayout { slot: 2, array_stride: 8, format: VertexFormat::Float32x2 },
    ]
}

/// The three vertex buffers of the pipeline, in slot order. Their strides
/// are those that the importer holds the attributes to.
pub fn vertex_buffer_layouts() -> (layouts: Vec<VertexBufferLayout>)
    ensures
        layouts@ == spec_vertex_buffer_layouts(),
        layouts@[0].array_stride == POSITION_STRIDE,
        layouts@[1].array_stride == POSITION_STRIDE,
        layouts@[2].array_stride == TEX_COORD_STRIDE,
{
    let mut layouts: Vec<VertexBufferLayout> = Vec::new();
    layouts.push(
        VertexBufferLayout { slot: 0, array_stride: 12, format: VertexFormat::Float32x3 },
    );
    layouts.push(
        VertexBufferLayout { slot: 1, array_stride: 12, format: VertexFormat::Float32x3 },
    );
    layouts.push(VertexBufferLayout { slot: 2, array_stride: 8, format: VertexFormat::Float32x2 });
    assert(layouts@ =~= spec_vertex_buffer_layouts());
    layouts
}

/// One indexed draw: the primitive at place `primitive` of the mesh, drawn
/// for the node with the material.
#[derive(Clone, Copy, Debug, PartialEq, Eq, Structural)]
pub struct DrawCall {
    pub node: Identity,
    pub mesh: Identity,
    /// Place of the primitive among the slots of the mesh.
    pub primitive: usize,
    pub material: Identity,
    pub index_count: usize,
    pub index_format: IndexFormat,
}

/// The draw of one slot of a mesh, if it has one: an empty slot, and a
/// primitive whose material the table does not hold, draw nothing.
pub open spec fn slot_draw(
    materials: Map<Identity, Material>,
    node: Identity,
    mesh: Identity,
    place: int,
    slot: Option<MeshPrimitive>,
) -> Option<DrawCall> {
    match slot {
        Some(p) => if p.material_id is Some && materials.contains_key(p.material_id->0) {
            Some(
                DrawCall {
                    node,
                    mesh,
                    primitive: place as usize,
                    material: p.material_id->0,
                    index_count: p.num_indices,
                    index_format: p.index_format,
                },
            )
        } else {
            None
        },
        None => None,
    }
}

/// The draws of the first `n` slots of a mesh, in slot order.
pub open spec fn mesh_draws(
    materials: Map<Identity, Material>,
    node: Identity,
    mesh: Mesh,
    n: nat,
) -> Seq<DrawCall>
    decreases n,
{
    if n == 0 {
        Seq::empty()
    } else {
        let before = mesh_draws(materials, node, mesh, (n - 1) as nat);
        match slot_draw(materials, node, mesh.id, n - 1, mesh.primitives@[n - 1]) {
            Some(draw) => before.push(draw),
            None => before,
        }
    }
}

/// The draws of one node: those of its mesh, if it names one that the
/// table holds.
pub open spec fn node_draws(g: ImportedGltf, id: Identity) -> Seq<DrawCall> {
    if g.nodes@.contains_key(id) && g.nodes@[id].mesh_id is Some && g.meshes@.contains_key(
        g.nodes@[id].mesh_id->0,
    ) {
        let mesh = g.meshes@[g.nodes@[id].mesh_id->0];
        mesh_draws(g.materials@, id, mesh, mesh.primitives@.len())
    } else {
        Seq::empty()
    }
}

/// The draws of the first `n` visible nodes, in the order of the list.
pub open spec fn draw_list(g: ImportedGltf, visible: Seq<Visit>, n: nat) -> Seq<DrawCall>
    decreases n,
{
    if n == 0 {
        Seq::empty()
    } else {
        draw_list(g, visible, (n - 1) as nat) + node_draws(g, visible[n - 1].node)
    }
}

/// Appends the draws of one mesh, drawn for `node`.
fn push_mesh_draws(
    draws: &mut Vec<DrawCall>,
    materials: &HashMap<Identity, Material>,
    node: Identity,
    mesh: &Mesh,
)
    ensures
        final(draws)@ == old(draws)@ + mesh_draws(
            materials@,
            node,
            *mesh,
            mesh.primitives@.len(),
        ),
{
    broadcast use vstd::std_specs::hash::group_hash_axioms;

    let mut place: usize = 0;
    assert(draws@ =~= old(draws)@ + mesh_draws(materials@, node, *mesh, 0));
    while place < mesh.primitives.len()
        invariant
            place <= mesh.primitives@.len(),
            draws@ == old(draws)@ + mesh_draws(materials@, node, *mesh, place as nat),
        decreases mesh.primitives@.len() - place,
    {
        let ghost before = mesh_draws(materials@, node, *mesh, place as nat);
        if let Some(primitive) = &mesh.primitives[place] {
            if let Some(material) = primitive.material_id {
                if materials.contains_key(&material) {
                    draws.push(
                        DrawCall {
                            node,
                            mesh: mesh.id,
                            primitive: place,
                            material,
                            index_count: primitive.num_indices,
                            index_format: primitive.index_format,
                        },
                    );
                }
            }
        }
        proof {
            let after = mesh_draws(materials@, node, *mesh, (place + 1) as nat);
            match slot_draw(materials@, node, mesh.id, place as int, mesh.primitives@[place as int]) {
                Some(draw) => {
                    assert(after == before.push(draw));
                    assert(draws@ =~= old(draws)@ + after);
                },
                None => {
                    assert(after == before);
                },
            }
        }
        place = place + 1;
    }
}

/// Lists the draw calls of a frame: for each visible node that names a
/// mesh, one call per primitive that was not skipped and whose material
/// the scene holds, in the order of the list and of the slots.
pub fn build_draw_list(g: &ImportedGltf, visible: &Vec<Visit>) -> (draws: Vec<DrawCall>)
    ensures
        draws@ == draw_list(*g, visible@, visible@.len()),
{
    broadcast use vstd::std_specs::hash::group_hash_axioms;

    let mut draws: Vec<DrawCall> = Vec::new();
    let mut i: usize = 0;
    while i < visible.len()
        invariant
            i <= visible@.len(),
            draws@ == draw_list(*g, visible@, i as nat),
        decreases visible@.len() - i,
    {
        let id = visible[i].node;
        let ghost before = draws@;
        if let Some(node) = g.nodes.get(&id) {
            if let Some(mesh_id) = node.mesh_id {
                if let Some(mesh) = g.meshes.get(&mesh_id) {
                    push_mesh_draws(&mut draws, &g.materials, id, mesh);
                }
            }
        }
        proof {
            assert(draws@ =~= before + node_draws(*g, id));
        }
        i = i + 1;
    }
    draws
}

} // verus!
