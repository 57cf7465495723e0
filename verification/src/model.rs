//! The resident scene: scenes, nodes and materials, found by identity.

use vstd::prelude::*;
use vstd::std_specs::iter::IteratorSpec;
use std::collections::HashMap;
use crate::identity::Identity;
use crate::mesh::Mesh;
use crate::transform::{NodeTransform, Vector3, Vector4};

verus! {

/// Size in bytes of a node's uniform buffer: a model matrix and a normal
/// matrix, sixteen single-precision numbers each.
pub const NODE_UNIFORM_SIZE: u64 = 128;

/// Size in bytes of a material's uniform buffer.
pub const MATERIAL_UNIFORM_SIZE: u64 = 32;

/// Size in bytes of the camera's uniform buffer: view position, view front
/// and a view-projection matrix.
pub const CAMERA_UNIFORM_SIZE: u64 = 96;

/// Everything that one import brings in. Entities refer to each other by
/// identity, through the four tables.
#[derive(Clone, Debug)]
pub struct ImportedGltf {
    pub default_scene_id: Option<Identity>,
    pub scenes: HashMap<Identity, Scene>,
    pub nodes: HashMap<Identity, Node>,
    pub meshes: HashMap<Identity, Mesh>,
    pub materials: HashMap<Identity, Material>,
}

impl ImportedGltf {
    /// Whether `scene` may be shown where none was chosen: the scene that
    /// `default_scene_id` names, and where it names none, any scene of the
    /// table.
    pub open spec fn may_default_to(self, scene: Scene) -> bool {
        match self.default_scene_id {
            Some(id) => self.scenes@.contains_key(id) && scene == self.scenes@[id],
            None => exists|id: Identity|
                #[trigger] self.scenes@.contains_key(id) && scene == self.scenes@[id],
        }
    }

    /// Whether there is no scene to show where none was chosen: the table
    /// lacks the scene that `default_scene_id` names, or there is no name
    /// and no scene.
    pub open spec fn has_no_default(self) -> bool {
        match self.default_scene_id {
            Some(id) => !self.scenes@.contains_key(id),
            None => self.scenes@.dom() == Set::<Identity>::empty(),
        }
    }

    /// The scene to display where none was chosen: the one that
    /// `default_scene_id` names. Where it names none, it is a scene of the
    /// table, no matter which: an import always names the default, so this
    /// is met only in a scene that was put together by hand.
    pub fn default_scene(&self) -> (scene: Option<&Scene>)
        ensures
            match scene {
                Some(s) => self.may_default_to(*s),
                None => self.has_no_default(),
            },
    {
        broadcast use vstd::std_specs::hash::group_hash_axioms;

        match self.default_scene_id {
            Some(id) => self.scenes.get(&id),
            None => {
                let ghost pairs = self.scenes.iter().remaining();
                for entry in it: self.scenes.iter()
                    invariant
                        self.default_scene_id is None,
                        it.index() == 0,
                        it.seq() == pairs,
                        pairs == self.scenes.iter().remaining(),
                {
                    proof {
                        assert(entry == pairs[0]);
                        let id = *pairs[0].0;
                        assert(self.scenes@.contains_key(id));
                        assert(self.scenes@[id] == *pairs[0].1);
                    }
                    return Some(entry.1);
                }
                proof {
                    assert(pairs.len() == 0);
                    assert(self.scenes@.dom().len() == 0);
                    self.scenes@.dom().lemma_len0_is_empty();
                }
                None
            },
        }
    }
}

/// Where a scene came from.
#[derive(Clone, Copy, Debug, PartialEq, Eq, Structural)]
pub enum SceneSourceInfo {
    Gltf { index: usize },
    SomethingElse,
}

#[derive(Clone, Debug)]
pub struct Scene {
    pub id: Identity,
    /// Identities of the root nodes.
    pub nodes: Vec<Identity>,
    pub source_info: SceneSourceInfo,
}

impl Scene {
    /// Index of the glTF scene that this scene was imported from.
    pub fn gltf_index(&self) -> (index: usize)
        requires
            self.source_info is Gltf,
        ensures
            self.source_info == (SceneSourceInfo::Gltf { index }),
    {
        match self.source_info {
            SceneSourceInfo::Gltf { index } => index,
            SceneSourceInfo::SomethingElse => 0,
        }
    }
}

/// Where a node came from.
#[derive(Clone, Copy, Debug, PartialEq, Eq, Structural)]
pub enum NodeSourceInfo {
    Gltf { index: usize },
    SomethingElse,
}

#[derive(Clone, Debug)]
pub struct Node {
    pub id: Identity,
    pub transform: NodeTransform,
    /// Identities of the child nodes.
    pub children: Vec<Identity>,
    pub mesh_id: Option<Identity>,
    pub source_info: NodeSourceInfo,
}

impl Node {
    /// Index of the glTF node that this node was imported from.
    pub fn gltf_index(&self) -> (index: usize)
        requires
            self.source_info is Gltf,
        ensures
            self.source_info == (NodeSourceInfo::Gltf { index }),
    {
        match self.source_info {
            NodeSourceInfo::Gltf { index } => index,
            NodeSourceInfo::SomethingElse => 0,
        }
    }
}

/// Where a material came from.
#[derive(Clone, Copy, Debug, PartialEq, Eq, Structural)]
pub enum MaterialSourceInfo {
    Gltf { index: usize },
    SomethingElse,
}

/// Payload of a material's uniform buffer: four numbers of base colour,
/// three of emission, and one of padding that is always zero.
#[derive(Clone, Copy, Debug, PartialEq, Eq, Structural)]
pub struct MaterialUniform {
    pub base_color_factor: Vector4,
    pub emissive_factor: Vector3,
    pub pad: u32,
}

impl MaterialUniform {
    /// The payload as the eight 32-bit words that the shader reads.
    pub open spec fn spec_words(self) -> Seq<u32> {
        seq![
            self.base_color_factor.x,
            self.base_color_factor.y,
            self.base_color_factor.z,
            self.base_color_factor.w,
            self.emissive_factor.x,
            self.emissive_factor.y,
            self.emissive_factor.z,
            self.pad,
        ]
    }

    /// The payload as the eight 32-bit words that the shader reads.
    pub fn words(&self) -> (words: Vec<u32>)
        ensures
            words@ == self.spec_words(),
    {
        let mut words: Vec<u32> = Vec::new();
        words.push(self.base_color_factor.x);
        words.push(self.base_color_factor.y);
        words.push(self.base_color_factor.z);
        words.push(self.base_color_factor.w);
        words.push(self.emissive_factor.x);
        words.push(self.emissive_factor.y);
        words.push(self.emissive_factor.z);
        words.push(self.pad);
        words
    }
}

#[derive(Clone, Copy, Debug, PartialEq, Eq, Structural)]
pub struct Material {
    pub id: Identity,
    pub base_color_factor: Vector4,
    pub emissive_factor: Vector3,
    pub source_info: MaterialSourceInfo,
}

impl Material {
    /// Index of the glTF material that this material was imported from.
    pub fn gltf_index(&self) -> (index: usize)
        requires
            self.source_info is Gltf,
        ensures
            self.source_info == (MaterialSourceInfo::Gltf { index }),
    {
        match self.source_info {
            MaterialSourceInfo::Gltf { index } => index,
            MaterialSourceInfo::SomethingElse => 0,
        }
    }

    /// The uniform payload of this material.
    pub open spec fn spec_uniform(self) -> MaterialUniform {
        MaterialUniform {
            base_color_factor: self.base_color_factor,
            emissive_factor: self.emissive_factor,
            pad: 0,
        }
    }

    /// Packs the factors into the uniform payload.
    pub fn uniform(&self) -> (u: MaterialUniform)
        ensures
            u == self.spec_uniform(),
    {
        MaterialUniform {
            base_color_factor: self.base_color_factor,
            emissive_factor: self.emissive_factor,
            pad: 0,
        }
    }
}

} // verus!
