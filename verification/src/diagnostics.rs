//! What an import has to say without failing: the conditions that are
//! passed over for one primitive or one material while the rest of the
//! document is imported.

use vstd::prelude::*;
use crate::source::{Document, Mode, SourceMaterial, SourceMesh};

verus! {

/// A condition that does not end the import. Meshes, primitives and
/// materials are named by their places in the document.
#[derive(Clone, Copy, Debug, PartialEq, Eq, Structural)]
pub enum ImportWarning {
    /// The material is double-sided; it is drawn with its back faces
    /// culled like any other.
    DoubleSidedMaterial { material: usize },
    /// The primitive is no triangle list and is skipped.
    SkippedPrimitive { mesh: usize, primitive: usize },
    /// The primitive has no texture coordinates; zeros stand in for them.
    SynthesizedTexCoords { mesh: usize, primitive: usize },
}

/// The warnings of the first `n` materials, in order.
pub open spec fn material_warnings(materials: Seq<SourceMaterial>, n: nat) -> Seq<ImportWarning>
    decreases n,
{
    if n == 0 {
        Seq::empty()
    } else {
        let before = material_warnings(materials, (n - 1) as nat);
        if materials[n - 1].double_sided {
            before.push(ImportWarning::DoubleSidedMaterial { material: (n - 1) as usize })
        } else {
            before
        }
    }
}

/// The warnings of the first `n` primitives of the mesh at place `mesh`,
/// in order.
pub open spec fn primitive_warnings(src: SourceMesh, mesh: usize, n: nat) -> Seq<ImportWarning>
    decreases n,
{
    if n == 0 {
        Seq::empty()
    } else {
        let before = primitive_warnings(src, mesh, (n - 1) as nat);
        let primitive = src.primitives@[n - 1];
        if primitive.mode != Mode::Triangles {
            before.push(ImportWarning::SkippedPrimitive { mesh, primitive: (n - 1) as usize })
        } else if primitive.tex_coords is None {
            before.push(ImportWarning::SynthesizedTexCoords { mesh, primitive: (n - 1) as usize })
        } else {
            before
        }
    }
}

/// The warnings of the first `n` meshes, in order.
pub open spec fn mesh_warnings(meshes: Seq<SourceMesh>, n: nat) -> Seq<ImportWarning>
    decreases n,
{
    if n == 0 {
        Seq::empty()
    } else {
        mesh_warnings(meshes, (n - 1) as nat) + primitive_warnings(
            meshes[n - 1],
            (n - 1) as usize,
            meshes[n - 1].primitives@.len(),
        )
    }
}

/// The warnings of a document: those of its materials, then those of its
/// meshes, in the order of the import.
pub open spec fn document_warnings(doc: Document) -> Seq<ImportWarning> {
    material_warnings(doc.materials@, doc.materials@.len()) + mesh_warnings(
        doc.meshes@,
        doc.meshes@.len(),
    )
}

/// Lists what the import of a document passes over: double-sided
/// materials, primitives that are skipped, and primitives whose texture
/// coordinates are synthesized.
pub fn import_warnings(doc: &Document) -> (warnings: Vec<ImportWarning>)
    ensures
        warnings@ == document_warnings(*doc),
{
    let mut warnings: Vec<ImportWarning> = Vec::new();
    let mut i: usize = 0;
    while i < doc.materials.len()
        invariant
            i <= doc.materials@.len(),
            warnings@ == material_warnings(doc.materials@, i as nat),
        decreases doc.materials@.len() - i,
    {
        if doc.materials[i].double_sided {
            warnings.push(ImportWarning::DoubleSidedMaterial { material: i });
        }
        i = i + 1;
    }
    let ghost of_materials = warnings@;
    let mut m: usize = 0;
    assert(warnings@ =~= of_materials + mesh_warnings(doc.meshes@, 0));
    while m < doc.meshes.len()
        invariant
            m <= doc.meshes@.len(),
            warnings@ == of_materials + mesh_warnings(doc.meshes@, m as nat),
        decreases doc.meshes@.len() - m,
    {
        let mesh = &doc.meshes[m];
        let ghost of_meshes = warnings@;
        let mut j: usize = 0;
        assert(warnings@ =~= of_meshes + primitive_warnings(*mesh, m, 0));
        while j < mesh.primitives.len()
            invariant
                j <= mesh.primitives@.len(),
                warnings@ == of_meshes + primitive_warnings(*mesh, m, j as nat),
            decreases mesh.primitives@.len() - j,
        {
            let ghost before = primitive_warnings(*mesh, m, j as nat);
            if mesh.primitives[j].mode != Mode::Triangles {
                warnings.push(ImportWarning::SkippedPrimitive { mesh: m, primitive: j });
                assert(warnings@ =~= of_meshes + before.push(
                    ImportWarning::SkippedPrimitive { mesh: m, primitive: j },
                ));
            } else if mesh.primitives[j].tex_coords.is_none() {
                warnings.push(ImportWarning::SynthesizedTexCoords { mesh: m, primitive: j });
                assert(warnings@ =~= of_meshes + before.push(
                    ImportWarning::SynthesizedTexCoords { mesh: m, primitive: j },
                ));
            }
            j = j + 1;
        }
        assert(warnings@ =~= of_materials + mesh_warnings(doc.meshes@, (m + 1) as nat));
        m = m + 1;
    }
    warnings
}

} // verus!
