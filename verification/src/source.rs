//! The source document, as plain values.
//!
//! These types hold exactly what the importer reads from a glTF document:
//! indices, offsets, strides and factors. The byte blobs are kept beside the
//! document, one per buffer.

use vstd::prelude::*;
use crate::transform::{NodeTransform, Vector3, Vector4};

verus! {

/// A raw byte range within one buffer.
#[derive(Clone, Copy, Debug, PartialEq, Eq, Structural)]
pub struct BufferView {
    /// Index of the buffer that the range lies in.
    pub buffer: usize,
    /// Offset of the range from the start of the buffer, in bytes.
    pub offset: usize,
    /// Distance between the starts of two consecutive elements, where the
    /// view states one.
    pub stride: Option<usize>,
}

/// A typed view over part of a buffer view.
#[derive(Clone, Copy, Debug, PartialEq, Eq, Structural)]
pub struct Accessor {
    pub view: Option<BufferView>,
    /// Offset from the start of the buffer view, in bytes.
    pub offset: usize,
    /// Number of elements.
    pub count: usize,
    /// Size of one element, in bytes.
    pub size: usize,
}

/// Topology of a primitive.
#[derive(Clone, Copy, Debug, PartialEq, Eq, Structural)]
pub enum Mode {
    Points,
    Lines,
    LineLoop,
    LineStrip,
    Triangles,
    TriangleStrip,
    TriangleFan,
}

/// One drawable part of a mesh.
#[derive(Clone, Copy, Debug, PartialEq, Eq, Structural)]
pub struct SourcePrimitive {
    pub index: usize,
    pub mode: Mode,
    pub indices: Option<Accessor>,
    pub positions: Option<Accessor>,
    pub normals: Option<Accessor>,
    pub tex_coords: Option<Accessor>,
    /// Index of the material, where the primitive names one.
    pub material: Option<usize>,
}

#[derive(Clone, Debug)]
pub struct SourceMesh {
    pub index: usize,
    pub primitives: Vec<SourcePrimitive>,
}

#[derive(Clone, Copy, Debug, PartialEq, Eq, Structural)]
pub struct SourceMaterial {
    pub index: Option<usize>,
    pub base_color_factor: Vector4,
    pub emissive_factor: Vector3,
    pub double_sided: bool,
}

#[derive(Clone, Debug)]
pub struct SourceNode {
    pub index: usize,
    pub transform: NodeTransform,
    /// Indices of the child nodes, in document order.
    pub children: Vec<usize>,
    pub mesh: Option<usize>,
}

#[derive(Clone, Debug)]
pub struct SourceScene {
    pub index: usize,
    /// Indices of the root nodes, in document order.
    pub nodes: Vec<usize>,
}

#[derive(Clone, Debug)]
pub struct Document {
    pub materials: Vec<SourceMaterial>,
    pub meshes: Vec<SourceMesh>,
    pub nodes: Vec<SourceNode>,
    pub scenes: Vec<SourceScene>,
    /// Index of the scene that the document declares as its default.
    pub default_scene: Option<usize>,
}

/// A document together with the contents of its buffers.
#[derive(Clone, Debug)]
pub struct GltfRoot {
    pub document: Document,
    pub buffers: Vec<Vec<u8>>,
}

} // verus!
