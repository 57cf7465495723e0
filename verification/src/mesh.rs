//! Resident meshes and their primitives.

use vstd::prelude::*;
use crate::identity::Identity;

verus! {

/// Where a mesh came from.
#[derive(Clone, Copy, Debug, PartialEq, Eq, Structural)]
pub enum MeshSourceInfo {
    Gltf { index: usize },
    SomethingElse,
}

/// A mesh: one slot per primitive of the source, empty where the primitive
/// was skipped.
#[derive(Clone, Debug)]
pub struct Mesh {
    pub id: Identity,
    pub primitives: Vec<Option<MeshPrimitive>>,
    pub source_info: MeshSourceInfo,
}

impl Mesh {
    /// Index of the glTF mesh that this mesh was imported from.
    pub fn gltf_index(&self) -> (index: usize)
        requires
            self.source_info is Gltf,
        ensures
            self.source_info == (MeshSourceInfo::Gltf { index }),
    {
        match self.source_info {
            MeshSourceInfo::Gltf { index } => index,
            MeshSourceInfo::SomethingElse => 0,
        }
    }
}

/// Where a primitive came from.
#[derive(Clone, Copy, Debug, PartialEq, Eq, Structural)]
pub enum PrimitiveSourceInfo {
    Gltf { index: usize },
}

/// Width of one vertex index.
#[derive(Clone, Copy, Debug, PartialEq, Eq, Structural)]
pub enum IndexFormat {
    Uint16,
    Uint32,
}

/// One drawable part of a mesh, with the contents of its four buffers.
#[derive(Clone, Debug)]
pub struct MeshPrimitive {
    pub id: Identity,
    /// Tightly packed positions, twelve bytes each.
    pub position_buffer: Vec<u8>,
    /// Tightly packed normals, twelve bytes each.
    pub normal_buffer: Vec<u8>,
    /// Tightly packed texture coordinates, eight bytes each.
    pub tex_coord_buffer: Vec<u8>,
    pub index_buffer: Vec<u8>,
    pub num_indices: usize,
    pub index_format: IndexFormat,
    pub material_id: Option<Identity>,
    pub source_info: PrimitiveSourceInfo,
}

} // verus!
