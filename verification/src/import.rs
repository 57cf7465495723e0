//! Import of a source document into a resident scene.

use vstd::prelude::*;
use std::collections::HashMap;
use crate::error::ImportError;
use crate::identity::Identity;
use crate::mesh::{IndexFormat, Mesh, MeshPrimitive, MeshSourceInfo, PrimitiveSourceInfo};
use crate::model::{
    Material, MaterialSourceInfo, Node, NodeSourceInfo, Scene, SceneSourceInfo,
};
use crate::source::{
    Accessor, GltfRoot, Mode, SourceMaterial, SourceMesh, SourceNode, SourcePrimitive,
    SourceScene,
};

verus! {

/// Bytes of one position or normal: three single-precision numbers.
pub const POSITION_STRIDE: usize = 12;

/// Bytes of one texture coordinate: two single-precision numbers.
pub const TEX_COORD_STRIDE: usize = 8;

/// Distance in bytes between two elements of an accessor: the stride of its
/// buffer view where that states one, else the size of an element.
pub open spec fn accessor_stride(acc: Accessor) -> usize
    recommends
        acc.view is Some,
{
    match acc.view->0.stride {
        Some(stride) => stride,
        None => acc.size,
    }
}

/// First byte of an accessor's data within its buffer.
pub open spec fn accessor_start(acc: Accessor) -> int
    recommends
        acc.view is Some,
{
    acc.view->0.offset + acc.offset
}

/// Number of bytes that an accessor's data takes.
pub open spec fn accessor_length(acc: Accessor) -> int {
    acc.size * acc.count
}

/// What decoding an accessor gives: the bytes of its range together with
/// its stride, or the reason for which it cannot be decoded.
pub open spec fn decode_outcome(
    acc: Accessor,
    buffers: Seq<Vec<u8>>,
    assert_stride: Option<usize>,
) -> Result<(Seq<u8>, usize), ImportError> {
    if acc.view is None {
        Err(ImportError::MissingBufferView)
    } else if assert_stride is Some && assert_stride->0 != accessor_stride(acc) {
        Err(ImportError::UnsupportedLayout)
    } else if acc.view->0.buffer >= buffers.len() || accessor_start(acc) + accessor_length(acc)
        > buffers[acc.view->0.buffer as int]@.len() {
        Err(ImportError::OutOfBounds)
    } else {
        Ok(
            (
                buffers[acc.view->0.buffer as int]@.subrange(
                    accessor_start(acc),
                    accessor_start(acc) + accessor_length(acc),
                ),
                accessor_stride(acc),
            ),
        )
    }
}

/// Decodes an accessor: resolves its buffer view, checks the stride against
/// the expected one where one is given, and copies out the byte range
/// `start .. start + size * count`. Returns the bytes and the stride.
pub fn import_buffer(acc: &Accessor, root: &GltfRoot, assert_stride: Option<usize>) -> (r: Result<
    (Vec<u8>, usize),
    ImportError,
>)
    ensures
        match r {
            Ok((bytes, stride)) => decode_outcome(*acc, root.buffers@, assert_stride) == Ok::<
                (Seq<u8>, usize),
                ImportError,
            >((bytes@, stride)),
            Err(e) => decode_outcome(*acc, root.buffers@, assert_stride) == Err::<
                (Seq<u8>, usize),
                ImportError,
            >(e),
        },
{
    let view = match acc.view {
        Some(view) => view,
        None => {
            return Err(ImportError::MissingBufferView);
        },
    };
    let stride: usize = match view.stride {
        Some(stride) => stride,
        None => acc.size,
    };
    if let Some(expected) = assert_stride {
        if stride != expected {
            return Err(ImportError::UnsupportedLayout);
        }
    }
    if view.buffer >= root.buffers.len() {
        return Err(ImportError::OutOfBounds);
    }
    let buffer = &root.buffers[view.buffer];
    let available: usize = buffer.len();
    let start: usize = match view.offset.checked_add(acc.offset) {
        Some(start) => start,
        None => {
            return Err(ImportError::OutOfBounds);
        },
    };
    let length: usize = match acc.size.checked_mul(acc.count) {
        Some(length) => length,
        None => {
            return Err(ImportError::OutOfBounds);
        },
    };
    let end: usize = match start.checked_add(length) {
        Some(end) => end,
        None => {
            return Err(ImportError::OutOfBounds);
        },
    };
    if end > available {
        return Err(ImportError::OutOfBounds);
    }
    let mut bytes: Vec<u8> = Vec::new();
    let mut at: usize = start;
    while at < end
        invariant
            start <= at <= end <= buffer.len(),
            bytes@ == buffer@.subrange(start as int, at as int),
        decreases end - at,
    {
        bytes.push(buffer[at]);
        at = at + 1;
    }
    Ok((bytes, stride))
}

/// Contents of the buffer that stands in for missing texture coordinates:
/// two zero-valued single-precision numbers per vertex.
pub open spec fn null_texcoord_bytes(count: usize) -> Seq<u8> {
    Seq::new((count * TEX_COORD_STRIDE) as nat, |i: int| 0u8)
}

/// Texture-coordinate synthesis, for any number of vertices: the contents
/// that stand in for missing texture coordinates are eight bytes per
/// vertex, two single-precision numbers, and every byte is zero.
pub proof fn lemma_null_texcoords_are_zero(count: usize)
    ensures
        null_texcoord_bytes(count).len() == count * 8,
        forall|i: int| 0 <= i < count * 8 ==> null_texcoord_bytes(count)[i] == 0,
{
}

/// Builds the zero-filled texture-coordinate buffer for `count` vertices.
pub fn create_null_texcoord_buffer(count: usize) -> (bytes: Vec<u8>)
    requires
        count * TEX_COORD_STRIDE <= usize::MAX,
    ensures
        bytes@ == null_texcoord_bytes(count),
{
    let length: usize = count * TEX_COORD_STRIDE;
    let mut bytes: Vec<u8> = Vec::new();
    let mut at: usize = 0;
    while at < length
        invariant
            at <= length,
            bytes@ == Seq::new(at as nat, |i: int| 0u8),
        decreases length - at,
    {
        bytes.push(0u8);
        at = at + 1;
    }
    bytes
}

/// The index format for indices of a given width in bytes.
pub open spec fn spec_index_format(width: usize) -> Option<IndexFormat> {
    if width == 2 {
        Some(IndexFormat::Uint16)
    } else if width == 4 {
        Some(IndexFormat::Uint32)
    } else {
        None
    }
}

/// Maps the width of an index in bytes to its format: two bytes are 16-bit
/// indices, four bytes 32-bit indices, and no other width has a format.
pub fn index_format(width: usize) -> (r: Result<IndexFormat, ImportError>)
    ensures
        match r {
            Ok(format) => spec_index_format(width) == Some(format),
            Err(e) => spec_index_format(width) is None && e == ImportError::UnsupportedIndexWidth,
        },
{
    if width == 2 {
        Ok(IndexFormat::Uint16)
    } else if width == 4 {
        Ok(IndexFormat::Uint32)
    } else {
        Err(ImportError::UnsupportedIndexWidth)
    }
}

/// Reason for which decoding a required attribute fails, if it does.
pub open spec fn attribute_failure(
    acc: Option<Accessor>,
    buffers: Seq<Vec<u8>>,
    assert_stride: Option<usize>,
) -> Option<ImportError> {
    match acc {
        None => Some(ImportError::MissingAttribute),
        Some(acc) => match decode_outcome(acc, buffers, assert_stride) {
            Ok(_) => None,
            Err(e) => Some(e),
        },
    }
}

/// Bytes of a required attribute that decodes.
pub open spec fn attribute_bytes(
    acc: Option<Accessor>,
    buffers: Seq<Vec<u8>>,
    assert_stride: Option<usize>,
) -> Seq<u8>
    recommends
        attribute_failure(acc, buffers, assert_stride) is None,
{
    decode_outcome(acc->0, buffers, assert_stride)->Ok_0.0
}

/// Reason for which the texture-coordinate buffer of a primitive cannot be
/// had, if there is one. Absent coordinates are no failure: they are
/// synthesized, one pair per position.
pub open spec fn tex_coord_failure(src: SourcePrimitive, buffers: Seq<Vec<u8>>) -> Option<
    ImportError,
>
    recommends
        src.positions is Some,
{
    match src.tex_coords {
        Some(acc) => attribute_failure(Some(acc), buffers, Some(TEX_COORD_STRIDE)),
        None => if src.positions->0.count * TEX_COORD_STRIDE > usize::MAX {
            Some(ImportError::CapacityOverflow)
        } else {
            None
        },
    }
}

/// Contents of the texture-coordinate buffer of a primitive.
pub open spec fn tex_coord_bytes(src: SourcePrimitive, buffers: Seq<Vec<u8>>) -> Seq<u8>
    recommends
        src.positions is Some,
        tex_coord_failure(src, buffers) is None,
{
    match src.tex_coords {
        Some(acc) => attribute_bytes(Some(acc), buffers, Some(TEX_COORD_STRIDE)),
        None => null_texcoord_bytes(src.positions->0.count),
    }
}

/// Reason for which the import of a primitive fails, if it does. A
/// primitive that is not a triangle list never fails: it is skipped.
pub open spec fn primitive_failure(
    src: SourcePrimitive,
    buffers: Seq<Vec<u8>>,
    material_ids: Map<usize, Identity>,
) -> Option<ImportError> {
    if src.mode != Mode::Triangles {
        None
    } else if attribute_failure(src.indices, buffers, None) is Some {
        attribute_failure(src.indices, buffers, None)
    } else if spec_index_format(src.indices->0.size) is None {
        Some(ImportError::UnsupportedIndexWidth)
    } else if src.positions is None || src.normals is None {
        Some(ImportError::MissingAttribute)
    } else if attribute_failure(src.positions, buffers, Some(POSITION_STRIDE)) is Some {
        attribute_failure(src.positions, buffers, Some(POSITION_STRIDE))
    } else if attribute_failure(src.normals, buffers, Some(POSITION_STRIDE)) is Some {
        attribute_failure(src.normals, buffers, Some(POSITION_STRIDE))
    } else if tex_coord_failure(src, buffers) is Some {
        tex_coord_failure(src, buffers)
    } else if src.material is Some && !material_ids.contains_key(src.material->0) {
        Some(ImportError::DanglingReference)
    } else {
        None
    }
}

/// Whether `p` is what a triangle-list primitive that does not fail is
/// imported as, under the identity `id`.
pub open spec fn primitive_imports_as(
    src: SourcePrimitive,
    buffers: Seq<Vec<u8>>,
    id: Identity,
    material_ids: Map<usize, Identity>,
    p: MeshPrimitive,
) -> bool {
    &&& p.id == id
    &&& p.source_info == (PrimitiveSourceInfo::Gltf { index: src.index })
    &&& p.index_buffer@ == attribute_bytes(src.indices, buffers, None)
    &&& Some(p.index_format) == spec_index_format(src.indices->0.size)
    &&& p.num_indices == src.indices->0.count
    &&& p.position_buffer@ == attribute_bytes(src.positions, buffers, Some(POSITION_STRIDE))
    &&& p.normal_buffer@ == attribute_bytes(src.normals, buffers, Some(POSITION_STRIDE))
    &&& p.tex_coord_buffer@ == tex_coord_bytes(src, buffers)
    &&& p.material_id == match src.material {
        Some(k) => Some(material_ids[k]),
        None => None,
    }
}

/// Whether `slot` is the outcome of importing a primitive that does not
/// fail: an empty slot for any topology but the triangle list, else the
/// imported primitive.
pub open spec fn primitive_slot_matches(
    src: SourcePrimitive,
    buffers: Seq<Vec<u8>>,
    id: Identity,
    material_ids: Map<usize, Identity>,
    slot: Option<MeshPrimitive>,
) -> bool {
    match slot {
        None => src.mode != Mode::Triangles,
        Some(p) => src.mode == Mode::Triangles && primitive_imports_as(
            src,
            buffers,
            id,
            material_ids,
            p,
        ),
    }
}

/// Imports one primitive under the identity `id`. A primitive of any
/// topology but the triangle list is skipped: the result is an empty slot.
/// Indices, positions and normals are required; texture coordinates are
/// synthesized where absent. The format of the indices goes by the size of
/// one index, whatever stride its buffer view states.
pub fn import_primitive(
    primitive: &SourcePrimitive,
    root: &GltfRoot,
    id: Identity,
    material_ids: &HashMap<usize, Identity>,
) -> (r: Result<Option<MeshPrimitive>, ImportError>)
    ensures
        match r {
            Ok(slot) => primitive_failure(*primitive, root.buffers@, material_ids@) is None
                && primitive_slot_matches(*primitive, root.buffers@, id, material_ids@, slot),
            Err(e) => primitive_failure(*primitive, root.buffers@, material_ids@) == Some(e),
        },
{
    broadcast use vstd::std_specs::hash::group_hash_axioms;

    if primitive.mode != Mode::Triangles {
        return Ok(None);
    }
    let index_acc = match primitive.indices {
        Some(acc) => acc,
        None => {
            return Err(ImportError::MissingAttribute);
        },
    };
    let index_buffer = match import_buffer(&index_acc, root, None) {
        Ok(decoded) => decoded.0,
        Err(e) => {
            return Err(e);
        },
    };
    let index_format = match index_format(index_acc.size) {
        Ok(format) => format,
        Err(e) => {
            return Err(e);
        },
    };
    let position_acc = match primitive.positions {
        Some(acc) => acc,
        None => {
            return Err(ImportError::MissingAttribute);
        },
    };
    let normal_acc = match primitive.normals {
        Some(acc) => acc,
        None => {
            return Err(ImportError::MissingAttribute);
        },
    };
    let vertex_count: usize = position_acc.count;
    let position_buffer = match import_buffer(&position_acc, root, Some(POSITION_STRIDE)) {
        Ok(decoded) => decoded.0,
        Err(e) => {
            return Err(e);
        },
    };
    let normal_buffer = match import_buffer(&normal_acc, root, Some(POSITION_STRIDE)) {
        Ok(decoded) => decoded.0,
        Err(e) => {
            return Err(e);
        },
    };
    let tex_coord_buffer = match primitive.tex_coords {
        Some(acc) => match import_buffer(&acc, root, Some(TEX_COORD_STRIDE)) {
            Ok(decoded) => decoded.0,
            Err(e) => {
                return Err(e);
            },
        },
        None => {
            if vertex_count > usize::MAX / TEX_COORD_STRIDE {
                return Err(ImportError::CapacityOverflow);
            }
            create_null_texcoord_buffer(vertex_count)
        },
    };
    let material_id = match primitive.material {
        Some(k) => match material_ids.get(&k) {
            Some(material_id) => Some(*material_id),
            None => {
                return Err(ImportError::DanglingReference);
            },
        },
        None => None,
    };
    Ok(
        Some(
            MeshPrimitive {
                id,
                position_buffer,
                normal_buffer,
                tex_coord_buffer,
                index_buffer,
                num_indices: index_acc.count,
                index_format,
                material_id,
                source_info: PrimitiveSourceInfo::Gltf { index: primitive.index },
            },
        ),
    )
}

/// Texture-coordinate synthesis: a primitive that is imported without
/// texture coordinates of its own holds two zero-valued numbers per
/// position, eight zero bytes.
pub proof fn lemma_tex_coords_synthesized(
    src: SourcePrimitive,
    buffers: Seq<Vec<u8>>,
    id: Identity,
    material_ids: Map<usize, Identity>,
    p: MeshPrimitive,
)
    requires
        src.tex_coords is None,
        src.positions is Some,
        primitive_imports_as(src, buffers, id, material_ids, p),
    ensures
        p.tex_coord_buffer@.len() == src.positions->0.count * 8,
        forall|i: int| 0 <= i < p.tex_coord_buffer@.len() ==> p.tex_coord_buffer@[i] == 0,
{
}

/// The first failure among the first `n` of a sequence of steps, where
/// `failures(i)` is the failure of step `i` taken alone.
pub open spec fn first_failure(failures: spec_fn(int) -> Option<ImportError>, n: nat) -> Option<
    ImportError,
>
    decreases n,
{
    if n == 0 {
        None
    } else {
        match first_failure(failures, (n - 1) as nat) {
            Some(e) => Some(e),
            None => failures(n - 1),
        }
    }
}

/// A failure among the first `k` steps is the failure of every longer run.
pub proof fn lemma_first_failure_sticks(
    failures: spec_fn(int) -> Option<ImportError>,
    k: nat,
    n: nat,
)
    requires
        k <= n,
        first_failure(failures, k) is Some,
    ensures
        first_failure(failures, n) == first_failure(failures, k),
    decreases n,
{
    if k < n {
        lemma_first_failure_sticks(failures, k, (n - 1) as nat);
    }
}

/// The failure of each primitive of a mesh, taken alone.
pub open spec fn primitive_failures(
    src: SourceMesh,
    buffers: Seq<Vec<u8>>,
    material_ids: Map<usize, Identity>,
) -> spec_fn(int) -> Option<ImportError> {
    |j: int| primitive_failure(src.primitives@[j], buffers, material_ids)
}

/// Reason for which the import of a mesh fails, if it does: that of its
/// first failing primitive.
pub open spec fn mesh_failure(
    src: SourceMesh,
    buffers: Seq<Vec<u8>>,
    primitive_ids: Seq<Identity>,
    material_ids: Map<usize, Identity>,
) -> Option<ImportError> {
    if primitive_ids.len() != src.primitives@.len() {
        Some(ImportError::IdentityShortage)
    } else {
        first_failure(primitive_failures(src, buffers, material_ids), src.primitives@.len())
    }
}

/// Whether `mesh` is what a mesh that does not fail is imported as: one
/// slot per primitive of the source, in order.
pub open spec fn mesh_imports_as(
    src: SourceMesh,
    buffers: Seq<Vec<u8>>,
    id: Identity,
    primitive_ids: Seq<Identity>,
    material_ids: Map<usize, Identity>,
    mesh: Mesh,
) -> bool {
    &&& mesh.id == id
    &&& mesh.source_info == (MeshSourceInfo::Gltf { index: src.index })
    &&& mesh.primitives@.len() == src.primitives@.len()
    &&& forall|j: int|
        0 <= j < src.primitives@.len() ==> primitive_slot_matches(
            src.primitives@[j],
            buffers,
            primitive_ids[j],
            material_ids,
            #[trigger] mesh.primitives@[j],
        )
}

/// Imports a mesh under the identity `id`, its primitives under
/// `primitive_ids`. An unsupported primitive leaves its slot empty; a
/// primitive that fails makes the mesh fail.
pub fn import_mesh(
    mesh: &SourceMesh,
    root: &GltfRoot,
    id: Identity,
    primitive_ids: &Vec<Identity>,
    material_ids: &HashMap<usize, Identity>,
) -> (r: Result<Mesh, ImportError>)
    ensures
        match r {
            Ok(m) => mesh_failure(*mesh, root.buffers@, primitive_ids@, material_ids@) is None
                && mesh_imports_as(*mesh, root.buffers@, id, primitive_ids@, material_ids@, m),
            Err(e) => mesh_failure(*mesh, root.buffers@, primitive_ids@, material_ids@) == Some(e),
        },
{
    if primitive_ids.len() != mesh.primitives.len() {
        return Err(ImportError::IdentityShortage);
    }
    let count: usize = mesh.primitives.len();
    let ghost failures = primitive_failures(*mesh, root.buffers@, material_ids@);
    let mut primitives: Vec<Option<MeshPrimitive>> = Vec::new();
    let mut j: usize = 0;
    while j < count
        invariant
            count == mesh.primitives@.len(),
            count == primitive_ids@.len(),
            j <= count,
            primitives@.len() == j,
            failures == primitive_failures(*mesh, root.buffers@, material_ids@),
            first_failure(failures, j as nat) is None,
            forall|k: int|
                0 <= k < j ==> primitive_slot_matches(
                    mesh.primitives@[k],
                    root.buffers@,
                    primitive_ids@[k],
                    material_ids@,
                    #[trigger] primitives@[k],
                ),
        decreases count - j,
    {
        match import_primitive(&mesh.primitives[j], root, primitive_ids[j], material_ids) {
            Ok(slot) => {
                primitives.push(slot);
            },
            Err(e) => {
                proof {
                    assert(first_failure(failures, (j + 1) as nat) == Some(e));
                    lemma_first_failure_sticks(failures, (j + 1) as nat, count as nat);
                }
                return Err(e);
            },
        }
        j = j + 1;
    }
    Ok(Mesh { id, primitives, source_info: MeshSourceInfo::Gltf { index: mesh.index } })
}

/// What a material that has an index is imported as.
pub open spec fn imported_material(src: SourceMaterial, id: Identity) -> Material
    recommends
        src.index is Some,
{
    Material {
        id,
        base_color_factor: src.base_color_factor,
        emissive_factor: src.emissive_factor,
        source_info: MaterialSourceInfo::Gltf { index: src.index->0 },
    }
}

/// Imports a material under the identity `id`. A material without an index
/// of its own cannot be referred to, and fails the import.
pub fn import_material(material: &SourceMaterial, id: Identity) -> (r: Result<
    Material,
    ImportError,
>)
    ensures
        match r {
            Ok(m) => material.index is Some && m == imported_material(*material, id),
            Err(e) => material.index is None && e == ImportError::MaterialWithoutIndex,
        },
{
    match material.index {
        Some(index) => Ok(
            Material {
                id,
                base_color_factor: material.base_color_factor,
                emissive_factor: material.emissive_factor,
                source_info: MaterialSourceInfo::Gltf { index },
            },
        ),
        None => Err(ImportError::MaterialWithoutIndex),
    }
}

/// Whether every index of `refs` has an identity in `table`.
pub open spec fn resolvable(refs: Seq<usize>, table: Map<usize, Identity>) -> bool {
    forall|k: int| 0 <= k < refs.len() ==> table.contains_key(#[trigger] refs[k])
}

/// The identities that `table` gives to the indices of `refs`, in order.
pub open spec fn resolved(refs: Seq<usize>, table: Map<usize, Identity>) -> Seq<Identity> {
    Seq::new(refs.len(), |k: int| table[refs[k]])
}

/// Looks up the identity of each index of `refs`.
pub fn resolve_all(refs: &Vec<usize>, table: &HashMap<usize, Identity>) -> (r: Result<
    Vec<Identity>,
    ImportError,
>)
    ensures
        match r {
            Ok(ids) => resolvable(refs@, table@) && ids@ == resolved(refs@, table@),
            Err(e) => !resolvable(refs@, table@) && e == ImportError::DanglingReference,
        },
{
    broadcast use vstd::std_specs::hash::group_hash_axioms;

    let mut ids: Vec<Identity> = Vec::new();
    let mut k: usize = 0;
    while k < refs.len()
        invariant
            k <= refs@.len(),
            ids@.len() == k,
            forall|j: int| 0 <= j < k ==> table@.contains_key(#[trigger] refs@[j]),
            forall|j: int| 0 <= j < k ==> #[trigger] ids@[j] == table@[refs@[j]],
        decreases refs@.len() - k,
    {
        match table.get(&refs[k]) {
            Some(id) => {
                ids.push(*id);
            },
            None => {
                return Err(ImportError::DanglingReference);
            },
        }
        k = k + 1;
    }
    Ok(ids)
}

/// Reason for which the import of a node fails, if it does.
pub open spec fn node_failure(
    src: SourceNode,
    mesh_ids: Map<usize, Identity>,
    node_ids: Map<usize, Identity>,
) -> Option<ImportError> {
    if !resolvable(src.children@, node_ids) || (src.mesh is Some && !mesh_ids.contains_key(
        src.mesh->0,
    )) {
        Some(ImportError::DanglingReference)
    } else {
        None
    }
}

/// Whether `node` is what a node that does not fail is imported as, under
/// the identity `id`.
pub open spec fn node_imports_as(
    src: SourceNode,
    id: Identity,
    mesh_ids: Map<usize, Identity>,
    node_ids: Map<usize, Identity>,
    node: Node,
) -> bool {
    &&& node.id == id
    &&& node.transform == src.transform
    &&& node.children@ == resolved(src.children@, node_ids)
    &&& node.mesh_id == match src.mesh {
        Some(k) => Some(mesh_ids[k]),
        None => None,
    }
    &&& node.source_info == (NodeSourceInfo::Gltf { index: src.index })
}

/// Imports a node under the identity `id`. The identities of all nodes are
/// fixed beforehand in `node_ids`, so that a node may name children that
/// come later in the document.
pub fn import_node(
    node: &SourceNode,
    id: Identity,
    mesh_ids: &HashMap<usize, Identity>,
    node_ids: &HashMap<usize, Identity>,
) -> (r: Result<Node, ImportError>)
    ensures
        match r {
            Ok(n) => node_failure(*node, mesh_ids@, node_ids@) is None && node_imports_as(
                *node,
                id,
                mesh_ids@,
                node_ids@,
                n,
            ),
            Err(e) => node_failure(*node, mesh_ids@, node_ids@) == Some(e),
        },
{
    broadcast use vstd::std_specs::hash::group_hash_axioms;

    let children = match resolve_all(&node.children, node_ids) {
        Ok(children) => children,
        Err(e) => {
            return Err(e);
        },
    };
    let mesh_id = match node.mesh {
        Some(k) => match mesh_ids.get(&k) {
            Some(mesh_id) => Some(*mesh_id),
            None => {
                return Err(ImportError::DanglingReference);
            },
        },
        None => None,
    };
    Ok(
        Node {
            id,
            transform: node.transform,
            children,
            mesh_id,
            source_info: NodeSourceInfo::Gltf { index: node.index },
        },
    )
}

/// Reason for which the import of a scene fails, if it does.
pub open spec fn scene_failure(src: SourceScene, node_ids: Map<usize, Identity>) -> Option<
    ImportError,
> {
    if !resolvable(src.nodes@, node_ids) {
        Some(ImportError::DanglingReference)
    } else {
        None
    }
}

/// Whether `scene` is what a scene that does not fail is imported as.
pub open spec fn scene_imports_as(
    src: SourceScene,
    id: Identity,
    node_ids: Map<usize, Identity>,
    scene: Scene,
) -> bool {
    &&& scene.id == id
    &&& scene.nodes@ == resolved(src.nodes@, node_ids)
    &&& scene.source_info == (SceneSourceInfo::Gltf { index: src.index })
}

/// Imports a scene under the identity `id`.
pub fn import_scene(scene: &SourceScene, id: Identity, node_ids: &HashMap<usize, Identity>) -> (r:
    Result<Scene, ImportError>)
    ensures
        match r {
            Ok(s) => scene_failure(*scene, node_ids@) is None && scene_imports_as(
                *scene,
                id,
                node_ids@,
                s,
            ),
            Err(e) => scene_failure(*scene, node_ids@) == Some(e),
        },
{
    match resolve_all(&scene.nodes, node_ids) {
        Ok(nodes) => Ok(
            Scene { id, nodes, source_info: SceneSourceInfo::Gltf { index: scene.index } },
        ),
        Err(e) => Err(e),
    }
}

} // verus!
