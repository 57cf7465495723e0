//! Commands: what a view asks to be done to a model.
//!
//! A view never changes a model itself. It hands out commands, and whoever
//! owns the model applies them.

use vstd::prelude::*;
use crate::engine::{pressed_after, steered, Engine};
use crate::identity::Identity;
use crate::input::InputEvent;
use crate::model::Node;
use crate::transform::{NodeTransform, Vector3};

verus! {

/// A new value for one component of a node's transform, as the bit pattern
/// of a single-precision number.
#[derive(Clone, Copy, Debug, PartialEq, Eq, Structural)]
pub struct UpdateFloatCommand {
    pub node_id: Identity,
    pub value: u32,
}

#[derive(Clone, Copy, Debug, PartialEq, Eq, Structural)]
pub enum EngineCommand {
    InputEvent(InputEvent),
    UpdatePositionX(UpdateFloatCommand),
    UpdatePositionY(UpdateFloatCommand),
    UpdatePositionZ(UpdateFloatCommand),
    UpdateScaleX(UpdateFloatCommand),
    UpdateScaleY(UpdateFloatCommand),
    UpdateScaleZ(UpdateFloatCommand),
}

impl EngineCommand {
    /// The node that the command edits, with the new value, if it edits
    /// one.
    pub open spec fn edit(self) -> Option<UpdateFloatCommand> {
        match self {
            EngineCommand::InputEvent(_) => None,
            EngineCommand::UpdatePositionX(f) => Some(f),
            EngineCommand::UpdatePositionY(f) => Some(f),
            EngineCommand::UpdatePositionZ(f) => Some(f),
            EngineCommand::UpdateScaleX(f) => Some(f),
            EngineCommand::UpdateScaleY(f) => Some(f),
            EngineCommand::UpdateScaleZ(f) => Some(f),
        }
    }

    /// The transform that the command leaves of `t`: one component of the
    /// position or the scale is replaced, the rest is kept.
    pub open spec fn edited(self, t: NodeTransform) -> NodeTransform {
        match self {
            EngineCommand::InputEvent(_) => t,
            EngineCommand::UpdatePositionX(f) => NodeTransform {
                position: Vector3 { x: f.value, ..t.position },
                ..t
            },
            EngineCommand::UpdatePositionY(f) => NodeTransform {
                position: Vector3 { y: f.value, ..t.position },
                ..t
            },
            EngineCommand::UpdatePositionZ(f) => NodeTransform {
                position: Vector3 { z: f.value, ..t.position },
                ..t
            },
            EngineCommand::UpdateScaleX(f) => NodeTransform {
                scale: Vector3 { x: f.value, ..t.scale },
                ..t
            },
            EngineCommand::UpdateScaleY(f) => NodeTransform {
                scale: Vector3 { y: f.value, ..t.scale },
                ..t
            },
            EngineCommand::UpdateScaleZ(f) => NodeTransform {
                scale: Vector3 { z: f.value, ..t.scale },
                ..t
            },
        }
    }

    /// Applies the edit of the command to a transform.
    pub fn apply_to(&self, t: NodeTransform) -> (r: NodeTransform)
        ensures
            r == self.edited(t),
    {
        let mut r = t;
        match self {
            EngineCommand::InputEvent(_) => {},
            EngineCommand::UpdatePositionX(f) => {
                r.position.x = f.value;
            },
            EngineCommand::UpdatePositionY(f) => {
                r.position.y = f.value;
            },
            EngineCommand::UpdatePositionZ(f) => {
                r.position.z = f.value;
            },
            EngineCommand::UpdateScaleX(f) => {
                r.scale.x = f.value;
            },
            EngineCommand::UpdateScaleY(f) => {
                r.scale.y = f.value;
            },
            EngineCommand::UpdateScaleZ(f) => {
                r.scale.z = f.value;
            },
        }
        r
    }

    /// The node that the command edits, if it edits one.
    pub fn target(&self) -> (id: Option<Identity>)
        ensures
            id == match self.edit() {
                Some(f) => Some(f.node_id),
                None => None,
            },
    {
        match self {
            EngineCommand::InputEvent(_) => None,
            EngineCommand::UpdatePositionX(f) => Some(f.node_id),
            EngineCommand::UpdatePositionY(f) => Some(f.node_id),
            EngineCommand::UpdatePositionZ(f) => Some(f.node_id),
            EngineCommand::UpdateScaleX(f) => Some(f.node_id),
            EngineCommand::UpdateScaleY(f) => Some(f.node_id),
            EngineCommand::UpdateScaleZ(f) => Some(f.node_id),
        }
    }
}

/// The engine as a model that commands act on.
#[derive(Clone, Debug)]
pub struct EngineModel {
    pub engine: Engine,
}

impl EngineModel {
    pub fn new(engine: Engine) -> (model: Self)
        ensures
            model.engine == engine,
    {
        Self { engine }
    }

    pub fn engine(&self) -> (engine: &Engine)
        ensures
            *engine == self.engine,
    {
        &self.engine
    }

    /// Applies a command that arrives at the time `now`, and tells whether
    /// it found what it acts on. An input event is passed to the engine and
    /// always finds it. An edit replaces one component of the transform of
    /// its node; where the scene does not hold the node, nothing changes.
    pub fn process_command(&mut self, command: EngineCommand, now: u64) -> (applied: bool)
        ensures
            match command {
                EngineCommand::InputEvent(event) => {
                    &&& applied
                    &&& final(self).engine.animation_state == old(
                        self,
                    ).engine.animation_state.after(event, now)
                    &&& final(self).engine.camera_controller == steered(
                        old(self).engine.camera_controller,
                        final(self).engine.animation_state,
                        event,
                    )
                    &&& final(self).engine.mouse_pressed == pressed_after(
                        old(self).engine.mouse_pressed,
                        event,
                    )
                    &&& final(self).engine.model_root == old(self).engine.model_root
                },
                _ => {
                    let id = command.edit()->0.node_id;
                    let nodes = old(self).engine.model_root.nodes@;
                    &&& applied == nodes.contains_key(id)
                    &&& final(self).engine.model_root.nodes@ == if applied {
                        nodes.insert(
                            id,
                            Node { transform: command.edited(nodes[id].transform), ..nodes[id] },
                        )
                    } else {
                        nodes
                    }
                    &&& final(self).engine.model_root.default_scene_id == old(
                        self,
                    ).engine.model_root.default_scene_id
                    &&& final(self).engine.model_root.scenes == old(self).engine.model_root.scenes
                    &&& final(self).engine.model_root.meshes == old(self).engine.model_root.meshes
                    &&& final(self).engine.model_root.materials == old(
                        self,
                    ).engine.model_root.materials
                    &&& final(self).engine.animation_state == old(self).engine.animation_state
                    &&& final(self).engine.camera_controller == old(
                        self,
                    ).engine.camera_controller
                    &&& final(self).engine.mouse_pressed == old(self).engine.mouse_pressed
                },
            },
            final(self).engine.pending_nodes == old(self).engine.pending_nodes,
            final(self).engine.target_width == old(self).engine.target_width,
            final(self).engine.target_height == old(self).engine.target_height,
    {
        match command {
            EngineCommand::InputEvent(event) => {
                self.engine.input(&event, now);
                true
            },
            _ => {
                let id = match command.target() {
                    Some(id) => id,
                    None => {
                        return false;
                    },
                };
                match self.engine.node_transform(id) {
                    Some(t) => self.engine.set_node_transform(id, command.apply_to(t)),
                    None => false,
                }
            },
        }
    }
}

} // verus!
