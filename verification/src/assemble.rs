//! Assembly of the resident scene from a document and an identity plan.
//!
//! The stages run in dependency order: materials, then meshes, which name
//! materials; then nodes, which name meshes and each other; then scenes,
//! which name nodes. The first failure ends the import.

use vstd::prelude::*;
use std::collections::HashMap;
use crate::error::ImportError;
use crate::identity::{
    all_distinct, drawn, flattened, lemma_drawn_step, Identity, IdentityPlan,
};
use crate::import::{
    first_failure, import_material, import_mesh, import_node, import_scene, imported_material,
    lemma_first_failure_sticks, mesh_failure, mesh_imports_as,
    node_failure, node_imports_as, scene_failure, scene_imports_as,
};
use crate::mesh::{Mesh, MeshSourceInfo};
use crate::model::{
    ImportedGltf, Material, MaterialSourceInfo, Node, NodeSourceInfo, Scene, SceneSourceInfo,
};
use crate::source::{Document, GltfRoot};

verus! {

/// The table from source index to identity that the first `n` elements
/// give; of two elements with one index the later one stays.
pub open spec fn index_table(indices: Seq<usize>, ids: Seq<Identity>, n: nat) -> Map<
    usize,
    Identity,
>
    decreases n,
{
    if n == 0 {
        Map::empty()
    } else {
        index_table(indices, ids, (n - 1) as nat).insert(indices[n - 1], ids[n - 1])
    }
}

/// The index of each material; meaningful where every material has one.
pub open spec fn material_indices(doc: Document) -> Seq<usize> {
    Seq::new(doc.materials@.len(), |i: int| doc.materials@[i].index->0)
}

/// The identity of the material with a given index.
pub open spec fn material_table(doc: Document, plan: IdentityPlan) -> Map<usize, Identity> {
    index_table(material_indices(doc), plan.materials@, doc.materials@.len())
}

/// The failure of each material, taken alone.
pub open spec fn material_failures(doc: Document, plan: IdentityPlan) -> spec_fn(int) -> Option<
    ImportError,
> {
    |i: int|
        if doc.materials@[i].index is None {
            Some(ImportError::MaterialWithoutIndex)
        } else {
            None
        }
}

/// The index of each mesh.
pub open spec fn mesh_indices(doc: Document) -> Seq<usize> {
    Seq::new(doc.meshes@.len(), |i: int| doc.meshes@[i].index)
}

/// The identity of the mesh with a given index.
pub open spec fn mesh_table(doc: Document, plan: IdentityPlan) -> Map<usize, Identity> {
    index_table(mesh_indices(doc), plan.meshes@, doc.meshes@.len())
}

/// The failure of each mesh, taken alone.
pub open spec fn mesh_failures(root: GltfRoot, plan: IdentityPlan) -> spec_fn(int) -> Option<
    ImportError,
> {
    |i: int|
        mesh_failure(
            root.document.meshes@[i],
            root.buffers@,
            plan.primitives@[i]@,
            material_table(root.document, plan),
        )
}

/// The index of each node.
pub open spec fn node_indices(doc: Document) -> Seq<usize> {
    Seq::new(doc.nodes@.len(), |i: int| doc.nodes@[i].index)
}

/// The identity of the node with a given index.
pub open spec fn node_table(doc: Document, plan: IdentityPlan) -> Map<usize, Identity> {
    index_table(node_indices(doc), plan.nodes@, doc.nodes@.len())
}

/// The failure of each node, taken alone.
pub open spec fn node_failures(doc: Document, plan: IdentityPlan) -> spec_fn(int) -> Option<
    ImportError,
> {
    |i: int|
        node_failure(doc.nodes@[i], mesh_table(doc, plan), node_table(doc, plan))
}

/// The index of each scene.
pub open spec fn scene_indices(doc: Document) -> Seq<usize> {
    Seq::new(doc.scenes@.len(), |i: int| doc.scenes@[i].index)
}

/// The identity of the scene with a given index.
pub open spec fn scene_table(doc: Document, plan: IdentityPlan) -> Map<usize, Identity> {
    index_table(scene_indices(doc), plan.scenes@, doc.scenes@.len())
}

/// The failure of each scene, taken alone.
pub open spec fn scene_failures(doc: Document, plan: IdentityPlan) -> spec_fn(int) -> Option<
    ImportError,
> {
    |i: int|
        scene_failure(doc.scenes@[i], node_table(doc, plan))
}

/// The default scene: the one that the document declares, else the first.
pub open spec fn default_scene_identity(doc: Document, plan: IdentityPlan) -> Option<Identity> {
    match doc.default_scene {
        Some(k) => Some(scene_table(doc, plan)[k]),
        None => if doc.scenes@.len() > 0 {
            Some(plan.scenes@[0])
        } else {
            None
        },
    }
}

/// Reason for which the assembly fails, if it does: a plan that does not
/// fit, then a plan that gives an identity twice, then the first failure
/// in the order of the stages.
pub open spec fn assemble_failure(root: GltfRoot, plan: IdentityPlan) -> Option<ImportError> {
    let doc = root.document;
    if !plan.fits(doc) {
        Some(ImportError::IdentityShortage)
    } else if !plan.distinct() {
        Some(ImportError::IdentityCollision)
    } else if first_failure(material_failures(doc, plan), doc.materials@.len()) is Some {
        first_failure(material_failures(doc, plan), doc.materials@.len())
    } else if first_failure(mesh_failures(root, plan), doc.meshes@.len()) is Some {
        first_failure(mesh_failures(root, plan), doc.meshes@.len())
    } else if first_failure(node_failures(doc, plan), doc.nodes@.len()) is Some {
        first_failure(node_failures(doc, plan), doc.nodes@.len())
    } else if first_failure(scene_failures(doc, plan), doc.scenes@.len()) is Some {
        first_failure(scene_failures(doc, plan), doc.scenes@.len())
    } else if doc.default_scene is Some && !scene_table(doc, plan).contains_key(
        doc.default_scene->0,
    ) {
        Some(ImportError::DanglingReference)
    } else {
        None
    }
}

/// Whether `materials` holds exactly the materials of the document, each
/// under its planned identity.
pub open spec fn materials_assembled(
    doc: Document,
    plan: IdentityPlan,
    materials: Map<Identity, Material>,
) -> bool {
    &&& materials.dom() == drawn(plan.materials@, doc.materials@.len() as int)
    &&& forall|i: int|
        0 <= i < doc.materials@.len() ==> materials[#[trigger] plan.materials@[i]]
            == imported_material(doc.materials@[i], plan.materials@[i])
}

/// Whether `meshes` holds exactly the meshes of the document, each under
/// its planned identity.
pub open spec fn meshes_assembled(root: GltfRoot, plan: IdentityPlan, meshes: Map<Identity, Mesh>) -> bool {
    &&& meshes.dom() == drawn(plan.meshes@, root.document.meshes@.len() as int)
    &&& forall|i: int|
        0 <= i < root.document.meshes@.len() ==> mesh_imports_as(
            root.document.meshes@[i],
            root.buffers@,
            plan.meshes@[i],
            plan.primitives@[i]@,
            material_table(root.document, plan),
            meshes[#[trigger] plan.meshes@[i]],
        )
}

/// Whether `nodes` holds exactly the nodes of the document, each under
/// its planned identity.
pub open spec fn nodes_assembled(
    doc: Document,
    plan: IdentityPlan,
    nodes: Map<Identity, Node>,
) -> bool {
    &&& nodes.dom() == drawn(plan.nodes@, doc.nodes@.len() as int)
    &&& forall|i: int|
        0 <= i < doc.nodes@.len() ==> node_imports_as(
            doc.nodes@[i],
            plan.nodes@[i],
            mesh_table(doc, plan),
            node_table(doc, plan),
            nodes[#[trigger] plan.nodes@[i]],
        )
}

/// Whether `scenes` holds exactly the scenes of the document, each under
/// its planned identity.
pub open spec fn scenes_assembled(doc: Document, plan: IdentityPlan, scenes: Map<Identity, Scene>) -> bool {
    &&& scenes.dom() == drawn(plan.scenes@, doc.scenes@.len() as int)
    &&& forall|i: int|
        0 <= i < doc.scenes@.len() ==> scene_imports_as(
            doc.scenes@[i],
            plan.scenes@[i],
            node_table(doc, plan),
            scenes[#[trigger] plan.scenes@[i]],
        )
}

/// Whether `g` is the resident scene that the document gives under the
/// plan: every entity of the document once, and nothing else.
pub open spec fn assembled(root: GltfRoot, plan: IdentityPlan, g: ImportedGltf) -> bool {
    &&& materials_assembled(root.document, plan, g.materials@)
    &&& meshes_assembled(root, plan, g.meshes@)
    &&& nodes_assembled(root.document, plan, g.nodes@)
    &&& scenes_assembled(root.document, plan, g.scenes@)
    &&& g.default_scene_id == default_scene_identity(root.document, plan)
}

/// Builds the table from source index to identity.
fn build_index_table(indices: &Vec<usize>, ids: &Vec<Identity>) -> (table: HashMap<usize, Identity>)
    requires
        indices@.len() == ids@.len(),
    ensures
        table@ == index_table(indices@, ids@, indices@.len()),
{
    broadcast use vstd::std_specs::hash::group_hash_axioms;

    let mut table: HashMap<usize, Identity> = HashMap::new();
    let mut i: usize = 0;
    while i < indices.len()
        invariant
            indices@.len() == ids@.len(),
            i <= indices@.len(),
            table@ == index_table(indices@, ids@, i as nat),
        decreases indices@.len() - i,
    {
        table.insert(indices[i], ids[i]);
        i = i + 1;
    }
    table
}

/// First stage: the materials, and the table of their identities.
fn import_materials(doc: &Document, plan: &IdentityPlan) -> (r: Result<
    (HashMap<Identity, Material>, HashMap<usize, Identity>),
    ImportError,
>)
    requires
        plan.materials@.len() == doc.materials@.len(),
        all_distinct(plan.materials@),
    ensures
        match r {
            Ok((materials, table)) => {
                &&& first_failure(material_failures(*doc, *plan), doc.materials@.len()) is None
                &&& materials_assembled(*doc, *plan, materials@)
                &&& table@ == material_table(*doc, *plan)
            },
            Err(e) => first_failure(material_failures(*doc, *plan), doc.materials@.len())
                == Some(e),
        },
{
    broadcast use vstd::std_specs::hash::group_hash_axioms;

    let count: usize = doc.materials.len();
    let ghost failures = material_failures(*doc, *plan);
    let mut materials: HashMap<Identity, Material> = HashMap::new();
    let mut table: HashMap<usize, Identity> = HashMap::new();
    let mut i: usize = 0;
    assert(materials@.dom() =~= drawn(plan.materials@, 0));
    while i < count
        invariant
            count == doc.materials@.len(),
            count == plan.materials@.len(),
            all_distinct(plan.materials@),
            i <= count,
            failures == material_failures(*doc, *plan),
            first_failure(failures, i as nat) is None,
            materials@.dom() == drawn(plan.materials@, i as int),
            forall|j: int|
                0 <= j < i ==> materials@[#[trigger] plan.materials@[j]] == imported_material(
                    doc.materials@[j],
                    plan.materials@[j],
                ),
            table@ == index_table(material_indices(*doc), plan.materials@, i as nat),
        decreases count - i,
    {
        let id = plan.materials[i];
        let material = match import_material(&doc.materials[i], id) {
            Ok(material) => material,
            Err(e) => {
                proof {
                    assert(first_failure(failures, (i + 1) as nat) == Some(e));
                    lemma_first_failure_sticks(failures, (i + 1) as nat, count as nat);
                }
                return Err(e);
            },
        };
        proof {
            lemma_drawn_step(plan.materials@, i as int);
        }
        materials.insert(id, material);
        table.insert(material.gltf_index(), id);
        i = i + 1;
    }
    Ok((materials, table))
}

/// Second stage: the meshes, and the table of their identities.
fn import_meshes(root: &GltfRoot, plan: &IdentityPlan, material_ids: &HashMap<usize, Identity>) -> (r:
    Result<(HashMap<Identity, Mesh>, HashMap<usize, Identity>), ImportError>)
    requires
        plan.fits(root.document),
        all_distinct(plan.meshes@),
        material_ids@ == material_table(root.document, *plan),
    ensures
        match r {
            Ok((meshes, table)) => {
                &&& first_failure(mesh_failures(*root, *plan), root.document.meshes@.len())
                    is None
                &&& meshes_assembled(*root, *plan, meshes@)
                &&& table@ == mesh_table(root.document, *plan)
            },
            Err(e) => first_failure(mesh_failures(*root, *plan), root.document.meshes@.len())
                == Some(e),
        },
{
    broadcast use vstd::std_specs::hash::group_hash_axioms;

    let doc = &root.document;
    let count: usize = doc.meshes.len();
    let ghost failures = mesh_failures(*root, *plan);
    let mut meshes: HashMap<Identity, Mesh> = HashMap::new();
    let mut table: HashMap<usize, Identity> = HashMap::new();
    let mut i: usize = 0;
    assert(meshes@.dom() =~= drawn(plan.meshes@, 0));
    while i < count
        invariant
            plan.fits(root.document),
            all_distinct(plan.meshes@),
            *doc == root.document,
            material_ids@ == material_table(root.document, *plan),
            count == doc.meshes@.len(),
            i <= count,
            failures == mesh_failures(*root, *plan),
            first_failure(failures, i as nat) is None,
            meshes@.dom() == drawn(plan.meshes@, i as int),
            forall|j: int|
                0 <= j < i ==> mesh_imports_as(
                    doc.meshes@[j],
                    root.buffers@,
                    plan.meshes@[j],
                    plan.primitives@[j]@,
                    material_ids@,
                    meshes@[#[trigger] plan.meshes@[j]],
                ),
            table@ == index_table(mesh_indices(*doc), plan.meshes@, i as nat),
        decreases count - i,
    {
        let id = plan.meshes[i];
        let mesh = match import_mesh(&doc.meshes[i], root, id, &plan.primitives[i], material_ids) {
            Ok(mesh) => mesh,
            Err(e) => {
                proof {
                    assert(first_failure(failures, (i + 1) as nat) == Some(e));
                    lemma_first_failure_sticks(failures, (i + 1) as nat, count as nat);
                }
                return Err(e);
            },
        };
        proof {
            lemma_drawn_step(plan.meshes@, i as int);
        }
        table.insert(mesh.gltf_index(), id);
        meshes.insert(id, mesh);
        i = i + 1;
    }
    Ok((meshes, table))
}

/// The index of each node, in document order.
fn collect_node_indices(doc: &Document) -> (indices: Vec<usize>)
    ensures
        indices@ == node_indices(*doc),
{
    let mut indices: Vec<usize> = Vec::new();
    let mut i: usize = 0;
    while i < doc.nodes.len()
        invariant
            i <= doc.nodes@.len(),
            indices@.len() == i,
            forall|j: int| 0 <= j < i ==> #[trigger] indices@[j] == doc.nodes@[j].index,
        decreases doc.nodes@.len() - i,
    {
        indices.push(doc.nodes[i].index);
        i = i + 1;
    }
    assert(indices@ =~= node_indices(*doc));
    indices
}

/// Third stage: the nodes. Their identities are fixed in `node_ids` before
/// the first of them is imported.
fn import_nodes(
    doc: &Document,
    plan: &IdentityPlan,
    mesh_ids: &HashMap<usize, Identity>,
    node_ids: &HashMap<usize, Identity>,
) -> (r: Result<HashMap<Identity, Node>, ImportError>)
    requires
        plan.nodes@.len() == doc.nodes@.len(),
        all_distinct(plan.nodes@),
        mesh_ids@ == mesh_table(*doc, *plan),
        node_ids@ == node_table(*doc, *plan),
    ensures
        match r {
            Ok(nodes) => {
                &&& first_failure(node_failures(*doc, *plan), doc.nodes@.len()) is None
                &&& nodes_assembled(*doc, *plan, nodes@)
            },
            Err(e) => first_failure(node_failures(*doc, *plan), doc.nodes@.len()) == Some(e),
        },
{
    broadcast use vstd::std_specs::hash::group_hash_axioms;

    let count: usize = doc.nodes.len();
    let ghost failures = node_failures(*doc, *plan);
    let mut nodes: HashMap<Identity, Node> = HashMap::new();
    let mut i: usize = 0;
    assert(nodes@.dom() =~= drawn(plan.nodes@, 0));
    while i < count
        invariant
            mesh_ids@ == mesh_table(*doc, *plan),
            node_ids@ == node_table(*doc, *plan),
            count == doc.nodes@.len(),
            count == plan.nodes@.len(),
            all_distinct(plan.nodes@),
            i <= count,
            failures == node_failures(*doc, *plan),
            first_failure(failures, i as nat) is None,
            nodes@.dom() == drawn(plan.nodes@, i as int),
            forall|j: int|
                0 <= j < i ==> node_imports_as(
                    doc.nodes@[j],
                    plan.nodes@[j],
                    mesh_ids@,
                    node_ids@,
                    nodes@[#[trigger] plan.nodes@[j]],
                ),
        decreases count - i,
    {
        let id = plan.nodes[i];
        let node = match import_node(&doc.nodes[i], id, mesh_ids, node_ids) {
            Ok(node) => node,
            Err(e) => {
                proof {
                    assert(first_failure(failures, (i + 1) as nat) == Some(e));
                    lemma_first_failure_sticks(failures, (i + 1) as nat, count as nat);
                }
                return Err(e);
            },
        };
        proof {
            lemma_drawn_step(plan.nodes@, i as int);
        }
        nodes.insert(id, node);
        i = i + 1;
    }
    Ok(nodes)
}

/// Fourth stage: the scenes, and the table of their identities.
fn import_scenes(doc: &Document, plan: &IdentityPlan, node_ids: &HashMap<usize, Identity>) -> (r:
    Result<(HashMap<Identity, Scene>, HashMap<usize, Identity>), ImportError>)
    requires
        plan.scenes@.len() == doc.scenes@.len(),
        all_distinct(plan.scenes@),
        node_ids@ == node_table(*doc, *plan),
    ensures
        match r {
            Ok((scenes, table)) => {
                &&& first_failure(scene_failures(*doc, *plan), doc.scenes@.len()) is None
                &&& scenes_assembled(*doc, *plan, scenes@)
                &&& table@ == scene_table(*doc, *plan)
            },
            Err(e) => first_failure(scene_failures(*doc, *plan), doc.scenes@.len()) == Some(e),
        },
{
    broadcast use vstd::std_specs::hash::group_hash_axioms;

    let count: usize = doc.scenes.len();
    let ghost failures = scene_failures(*doc, *plan);
    let mut scenes: HashMap<Identity, Scene> = HashMap::new();
    let mut table: HashMap<usize, Identity> = HashMap::new();
    let mut i: usize = 0;
    assert(scenes@.dom() =~= drawn(plan.scenes@, 0));
    while i < count
        invariant
            node_ids@ == node_table(*doc, *plan),
            count == doc.scenes@.len(),
            count == plan.scenes@.len(),
            all_distinct(plan.scenes@),
            i <= count,
            failures == scene_failures(*doc, *plan),
            first_failure(failures, i as nat) is None,
            scenes@.dom() == drawn(plan.scenes@, i as int),
            forall|j: int|
                0 <= j < i ==> scene_imports_as(
                    doc.scenes@[j],
                    plan.scenes@[j],
                    node_ids@,
                    scenes@[#[trigger] plan.scenes@[j]],
                ),
            table@ == index_table(scene_indices(*doc), plan.scenes@, i as nat),
        decreases count - i,
    {
        let id = plan.scenes[i];
        let scene = match import_scene(&doc.scenes[i], id, node_ids) {
            Ok(scene) => scene,
            Err(e) => {
                proof {
                    assert(first_failure(failures, (i + 1) as nat) == Some(e));
                    lemma_first_failure_sticks(failures, (i + 1) as nat, count as nat);
                }
                return Err(e);
            },
        };
        proof {
            lemma_drawn_step(plan.scenes@, i as int);
        }
        table.insert(scene.gltf_index(), id);
        scenes.insert(id, scene);
        i = i + 1;
    }
    Ok((scenes, table))
}

/// Assembles the resident scene of a document under the identities of
/// `plan`, which has to give one identity to each entity and none twice.
/// The outcome is a function of the two: the same document under the same
/// plan gives the same scene.
pub fn assemble(root: &GltfRoot, plan: &IdentityPlan) -> (r: Result<ImportedGltf, ImportError>)
    ensures
        match r {
            Ok(g) => assemble_failure(*root, *plan) is None && assembled(*root, *plan, g),
            Err(e) => assemble_failure(*root, *plan) == Some(e),
        },
{
    broadcast use vstd::std_specs::hash::group_hash_axioms;

    let doc = &root.document;
    if !plan.is_fit(doc) {
        return Err(ImportError::IdentityShortage);
    }
    if !plan.is_distinct() {
        return Err(ImportError::IdentityCollision);
    }
    proof {
        plan.lemma_kinds_distinct();
    }
    let (materials, material_ids) = match import_materials(doc, plan) {
        Ok(stage) => stage,
        Err(e) => {
            return Err(e);
        },
    };
    let (meshes, mesh_ids) = match import_meshes(root, plan, &material_ids) {
        Ok(stage) => stage,
        Err(e) => {
            return Err(e);
        },
    };
    let indices = collect_node_indices(doc);
    let node_ids = build_index_table(&indices, &plan.nodes);
    let nodes = match import_nodes(doc, plan, &mesh_ids, &node_ids) {
        Ok(stage) => stage,
        Err(e) => {
            return Err(e);
        },
    };
    let (scenes, scene_ids) = match import_scenes(doc, plan, &node_ids) {
        Ok(stage) => stage,
        Err(e) => {
            return Err(e);
        },
    };
    let default_scene_id = match doc.default_scene {
        Some(k) => match scene_ids.get(&k) {
            Some(id) => Some(*id),
            None => {
                return Err(ImportError::DanglingReference);
            },
        },
        None => if plan.scenes.len() > 0 {
            Some(plan.scenes[0])
        } else {
            None
        },
    };
    Ok(ImportedGltf { default_scene_id, scenes, nodes, meshes, materials })
}

/// Imports a document under identities drawn at random. Whatever was
/// drawn, the outcome is that of `assemble` under some plan of random
/// identities that fits the document.
pub fn import_gltf(root: &GltfRoot) -> (r: Result<ImportedGltf, ImportError>)
    ensures
        exists|plan: IdentityPlan|
            #![trigger assemble_failure(*root, plan)]
            plan.fits(root.document) && plan.random() && match r {
                Ok(g) => assemble_failure(*root, plan) is None && assembled(*root, plan, g),
                Err(e) => assemble_failure(*root, plan) == Some(e),
            },
{
    let plan = IdentityPlan::draw(&root.document);
    let r = assemble(root, &plan);
    proof {
        assert(plan.fits(root.document) && plan.random() && match r {
            Ok(g) => assemble_failure(*root, plan) is None && assembled(*root, plan, g),
            Err(e) => assemble_failure(*root, plan) == Some(e),
        });
    }
    r
}

/// Whether every index of the sequence is its own position, as the
/// indices of the elements of a glTF document are.
pub open spec fn in_order(indices: Seq<usize>) -> bool {
    forall|i: int| 0 <= i < indices.len() ==> #[trigger] indices[i] == i
}

/// Where every element carries its position as its index, the table gives
/// to each position the identity that the plan holds there.
pub proof fn lemma_index_table_in_order(indices: Seq<usize>, ids: Seq<Identity>, n: nat)
    requires
        in_order(indices),
        n <= indices.len(),
        n <= ids.len(),
    ensures
        forall|k: usize| #[trigger] index_table(indices, ids, n).contains_key(k) <==> k < n,
        forall|k: usize| k < n ==> #[trigger] index_table(indices, ids, n)[k] == ids[k as int],
    decreases n,
{
    let table = index_table(indices, ids, n);
    if n > 0 {
        let before = index_table(indices, ids, (n - 1) as nat);
        lemma_index_table_in_order(indices, ids, (n - 1) as nat);
        assert(indices[n - 1] == n - 1);
        assert(table == before.insert(indices[n - 1], ids[n - 1]));
        assert forall|k: usize| #[trigger] table.contains_key(k) <==> k < n by {
            if k != indices[n - 1] {
                assert(table.contains_key(k) == before.contains_key(k));
            }
        }
        assert forall|k: usize| k < n implies #[trigger] table[k] == ids[k as int] by {
            if k != indices[n - 1] {
                assert(before.contains_key(k));
                assert(table[k] == before[k]);
            }
        }
    }
}

/// In a document whose nodes carry their positions as indices, as those
/// of a glTF document do, a reference to the node at a position resolves
/// to the identity that the plan holds at that position.
pub proof fn lemma_references_follow_plan(doc: Document, plan: IdentityPlan)
    requires
        in_order(node_indices(doc)),
        plan.nodes@.len() == doc.nodes@.len(),
    ensures
        forall|k: usize| #[trigger] node_table(doc, plan).contains_key(k) <==> k < doc.nodes@.len(),
        forall|k: usize|
            k < doc.nodes@.len() ==> #[trigger] node_table(doc, plan)[k] == plan.nodes@[k as int],
{
    lemma_index_table_in_order(node_indices(doc), plan.nodes@, doc.nodes@.len());
}

/// Provenance: the tag of every material, mesh, node and scene of an
/// assembled scene is the index of the element of the document that it
/// was imported from, whatever its identity.
pub proof fn lemma_provenance(root: GltfRoot, plan: IdentityPlan, g: ImportedGltf)
    requires
        assemble_failure(root, plan) is None,
        assembled(root, plan, g),
    ensures
        forall|i: int|
            0 <= i < root.document.materials@.len() ==> g.materials@[#[trigger] plan.materials@[i]].source_info
                == (MaterialSourceInfo::Gltf { index: root.document.materials@[i].index->0 }),
        forall|i: int|
            0 <= i < root.document.meshes@.len() ==> g.meshes@[#[trigger] plan.meshes@[i]].source_info
                == (MeshSourceInfo::Gltf { index: root.document.meshes@[i].index }),
        forall|i: int|
            0 <= i < root.document.nodes@.len() ==> g.nodes@[#[trigger] plan.nodes@[i]].source_info
                == (NodeSourceInfo::Gltf { index: root.document.nodes@[i].index }),
        forall|i: int|
            0 <= i < root.document.scenes@.len() ==> g.scenes@[#[trigger] plan.scenes@[i]].source_info
                == (SceneSourceInfo::Gltf { index: root.document.scenes@[i].index }),
{
}

/// Nothing is in an assembled scene but what the document holds: every
/// node of the scene was imported from a node of the document.
pub proof fn lemma_nodes_have_sources(
    root: GltfRoot,
    plan: IdentityPlan,
    g: ImportedGltf,
    id: Identity,
) -> (i: int)
    requires
        assembled(root, plan, g),
        g.nodes@.contains_key(id),
    ensures
        0 <= i < root.document.nodes@.len(),
        id == plan.nodes@[i],
        node_imports_as(
            root.document.nodes@[i],
            id,
            mesh_table(root.document, plan),
            node_table(root.document, plan),
            g.nodes@[id],
        ),
{
    assert(drawn(plan.nodes@, root.document.nodes@.len() as int).contains(id));
    let i = choose|i: int| 0 <= i < root.document.nodes@.len() && #[trigger] plan.nodes@[i] == id;
    i
}

/// Stable identities: two scenes assembled from one document under one
/// plan hold the same entities under the same identities, and the same
/// default scene.
pub proof fn lemma_same_plan_same_identities(
    root: GltfRoot,
    plan: IdentityPlan,
    g1: ImportedGltf,
    g2: ImportedGltf,
)
    requires
        assembled(root, plan, g1),
        assembled(root, plan, g2),
    ensures
        g1.default_scene_id == g2.default_scene_id,
        g1.materials@ == g2.materials@,
        g1.meshes@.dom() == g2.meshes@.dom(),
        g1.nodes@.dom() == g2.nodes@.dom(),
        g1.scenes@.dom() == g2.scenes@.dom(),
        forall|id: Identity| #[trigger]
            g1.nodes@.contains_key(id) ==> {
                &&& g1.nodes@[id].id == g2.nodes@[id].id
                &&& g1.nodes@[id].transform == g2.nodes@[id].transform
                &&& g1.nodes@[id].children@ == g2.nodes@[id].children@
                &&& g1.nodes@[id].mesh_id == g2.nodes@[id].mesh_id
                &&& g1.nodes@[id].source_info == g2.nodes@[id].source_info
            },
        forall|id: Identity| #[trigger]
            g1.scenes@.contains_key(id) ==> {
                &&& g1.scenes@[id].id == g2.scenes@[id].id
                &&& g1.scenes@[id].nodes@ == g2.scenes@[id].nodes@
                &&& g1.scenes@[id].source_info == g2.scenes@[id].source_info
            },
        forall|id: Identity| #[trigger]
            g1.meshes@.contains_key(id) ==> {
                &&& g1.meshes@[id].id == g2.meshes@[id].id
                &&& g1.meshes@[id].source_info == g2.meshes@[id].source_info
                &&& g1.meshes@[id].primitives@.len() == g2.meshes@[id].primitives@.len()
            },
{
    let doc = root.document;
    assert forall|id: Identity| g1.materials@.contains_key(id) implies g1.materials@[id]
        == g2.materials@[id] by {
        assert(drawn(plan.materials@, doc.materials@.len() as int).contains(id));
        let i = choose|i: int| 0 <= i < doc.materials@.len() && #[trigger] plan.materials@[i] == id;
    }
    assert(g1.materials@ =~= g2.materials@);
    assert forall|id: Identity| #[trigger] g1.nodes@.contains_key(id) implies {
        &&& g1.nodes@[id].id == g2.nodes@[id].id
        &&& g1.nodes@[id].transform == g2.nodes@[id].transform
        &&& g1.nodes@[id].children@ == g2.nodes@[id].children@
        &&& g1.nodes@[id].mesh_id == g2.nodes@[id].mesh_id
        &&& g1.nodes@[id].source_info == g2.nodes@[id].source_info
    } by {
        let i = lemma_nodes_have_sources(root, plan, g1, id);
    }
    assert forall|id: Identity| #[trigger] g1.scenes@.contains_key(id) implies {
        &&& g1.scenes@[id].id == g2.scenes@[id].id
        &&& g1.scenes@[id].nodes@ == g2.scenes@[id].nodes@
        &&& g1.scenes@[id].source_info == g2.scenes@[id].source_info
    } by {
        assert(drawn(plan.scenes@, doc.scenes@.len() as int).contains(id));
        let i = choose|i: int| 0 <= i < doc.scenes@.len() && #[trigger] plan.scenes@[i] == id;
    }
    assert forall|id: Identity| #[trigger] g1.meshes@.contains_key(id) implies {
        &&& g1.meshes@[id].id == g2.meshes@[id].id
        &&& g1.meshes@[id].source_info == g2.meshes@[id].source_info
        &&& g1.meshes@[id].primitives@.len() == g2.meshes@[id].primitives@.len()
    } by {
        assert(drawn(plan.meshes@, doc.meshes@.len() as int).contains(id));
        let i = choose|i: int| 0 <= i < doc.meshes@.len() && #[trigger] plan.meshes@[i] == id;
    }
}

/// Unique identities: where the assembly does not fail, no identity of
/// the plan is given twice, be it to two entities of one kind or of two
/// kinds. Every material, mesh, primitive, node and scene of the scene
/// has an identity that nothing else in the scene has.
pub proof fn lemma_identities_distinct(root: GltfRoot, plan: IdentityPlan)
    requires
        assemble_failure(root, plan) is None,
    ensures
        all_distinct(plan.identities()),
        all_distinct(plan.materials@),
        all_distinct(plan.meshes@),
        all_distinct(flattened(plan.primitives@, plan.primitives@.len())),
        all_distinct(plan.nodes@),
        all_distinct(plan.scenes@),
{
    plan.lemma_kinds_distinct();
}

} // verus!
