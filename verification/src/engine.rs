//! The engine: the resident scene together with the state that input and
//! frames act on.
//!
//! The engine decides; it touches neither clock nor device. The caller
//! hands in the time with each event and each frame, and receives what to
//! do: how far to move the camera, which nodes to write, what to draw.

use vstd::prelude::*;
use crate::camera::CameraController;
use crate::frame::{is_visible_list, lemma_nothing_to_show, visible_nodes, Visit};
use crate::identity::Identity;
use crate::input::{AnimationSession, AnimationState, InputEvent};
use crate::model::{ImportedGltf, Node};
use crate::render::{build_draw_list, draw_list, DrawCall};
use crate::transform::NodeTransform;

verus! {

/// Speed of the camera, 4.0, as a bit pattern.
pub const CAMERA_SPEED: u32 = 0x4080_0000;

/// Sensitivity of the camera to the mouse, 0.4, as a bit pattern.
pub const CAMERA_SENSITIVITY: u32 = 0x3ecc_cccd;

#[derive(Clone, Debug)]
pub struct Engine {
    pub animation_state: AnimationState,
    pub target_width: u32,
    pub target_height: u32,
    pub model_root: ImportedGltf,
    pub camera_controller: CameraController,
    pub mouse_pressed: bool,
    /// The nodes that the last frame update found visible.
    pub pending_nodes: Vec<Visit>,
}

/// What the caller has to do for one frame, besides writing the uniforms of
/// the visible nodes.
#[derive(Clone, Copy, Debug, PartialEq, Eq, Structural)]
pub struct FrameUpdate {
    /// Time since the frame before, in nanoseconds; zero outside a session
    /// and at its first frame.
    pub dt: u64,
    /// What the input has asked of the camera since the frame before.
    pub motion: CameraController,
}

/// Whether the walk of a frame may start from `roots`: they are those of
/// the scene that the default names, and none where the table lacks that
/// scene. Where the default names no scene, they are those of a scene of
/// the table, no matter which, and none where the table is empty.
pub open spec fn starts_from(g: ImportedGltf, roots: Seq<Identity>) -> bool {
    match g.default_scene_id {
        Some(id) => roots == if g.scenes@.contains_key(id) {
            g.scenes@[id].nodes@
        } else {
            Seq::empty()
        },
        None => if g.scenes@.dom() == Set::<Identity>::empty() {
            roots == Seq::<Identity>::empty()
        } else {
            exists|id: Identity| #[trigger] g.scenes@.contains_key(id) && roots == g.scenes@[id].nodes@
        },
    }
}

/// The state at the frame that comes at the time `now`.
pub open spec fn ticked(state: AnimationState, now: u64) -> AnimationState {
    match state {
        AnimationState::Idle => AnimationState::Idle,
        AnimationState::Animating(session) => AnimationState::Animating(
            AnimationSession { prev_time: Some(session.now), now, ..session },
        ),
    }
}

/// The time between the last two frames of a state.
pub open spec fn elapsed(state: AnimationState) -> u64 {
    match state {
        AnimationState::Idle => 0,
        AnimationState::Animating(session) => match session.prev_time {
            Some(prev) => if session.now >= prev {
                (session.now - prev) as u64
            } else {
                0
            },
            None => 0,
        },
    }
}

/// Whether an event is handled, given the state it leaves behind: all are
/// but a mouse move while the camera is not turning.
pub open spec fn handles(after: AnimationState, event: InputEvent) -> bool {
    match event {
        InputEvent::MouseMove { .. } => after.rotating(),
        _ => true,
    }
}

/// The controller after an event, given the state that the event leaves
/// behind.
pub open spec fn steered(
    controller: CameraController,
    after: AnimationState,
    event: InputEvent,
) -> CameraController {
    match event {
        InputEvent::KeyPressing(key) => controller.with_key(key, true),
        InputEvent::KeyUp(key) => controller.with_key(key, false),
        InputEvent::MouseWheel { delta_x, delta_y } => controller.with_scroll(delta_y),
        InputEvent::MouseMove { delta_x, delta_y } => if after.rotating() {
            controller.with_mouse(delta_x, delta_y)
        } else {
            controller
        },
        _ => controller,
    }
}

/// The mouse flag after an event.
pub open spec fn pressed_after(pressed: bool, event: InputEvent) -> bool {
    match event {
        InputEvent::MouseRightDown => true,
        InputEvent::MouseRightUp => false,
        _ => pressed,
    }
}

impl Engine {
    /// An engine at rest that shows `model_root` on a target of the given
    /// size.
    pub fn new(model_root: ImportedGltf, width: u32, height: u32) -> (engine: Engine)
        ensures
            engine.animation_state == AnimationState::Idle,
            engine.target_width == width,
            engine.target_height == height,
            engine.model_root == model_root,
            engine.camera_controller == CameraController::spec_new(
                CAMERA_SPEED,
                CAMERA_SENSITIVITY,
            ),
            !engine.mouse_pressed,
            engine.pending_nodes@ == Seq::<Visit>::empty(),
    {
        Engine {
            animation_state: AnimationState::Idle,
            target_width: width,
            target_height: height,
            model_root,
            camera_controller: CameraController::new(CAMERA_SPEED, CAMERA_SENSITIVITY),
            mouse_pressed: false,
            pending_nodes: Vec::new(),
        }
    }

    /// Whether a new size makes the engine change its target: a size that
    /// is not empty and differs from the present one, in width or in
    /// height, does.
    pub open spec fn resizes(self, width: u32, height: u32) -> bool {
        width > 0 && height > 0 && (self.target_width != width || self.target_height != height)
    }

    /// Takes a new target size, and tells whether the attachments have to
    /// be made anew. Neither the scene nor the list of visible nodes
    /// changes.
    pub fn resize(&mut self, width: u32, height: u32) -> (changed: bool)
        ensures
            changed == old(self).resizes(width, height),
            final(self).target_width == if changed {
                width
            } else {
                old(self).target_width
            },
            final(self).target_height == if changed {
                height
            } else {
                old(self).target_height
            },
            final(self).animation_state == old(self).animation_state,
            final(self).model_root == old(self).model_root,
            final(self).camera_controller == old(self).camera_controller,
            final(self).mouse_pressed == old(self).mouse_pressed,
            final(self).pending_nodes == old(self).pending_nodes,
    {
        let changed = width > 0 && height > 0 && (self.target_width != width
            || self.target_height != height);
        if changed {
            self.target_width = width;
            self.target_height = height;
        }
        changed
    }

    /// Takes an event that arrives at the time `now`, and tells whether it
    /// was handled.
    pub fn input(&mut self, event: &InputEvent, now: u64) -> (handled: bool)
        ensures
            final(self).animation_state == old(self).animation_state.after(*event, now),
            final(self).camera_controller == steered(
                old(self).camera_controller,
                final(self).animation_state,
                *event,
            ),
            final(self).mouse_pressed == pressed_after(old(self).mouse_pressed, *event),
            handled == handles(final(self).animation_state, *event),
            final(self).target_width == old(self).target_width,
            final(self).target_height == old(self).target_height,
            final(self).model_root == old(self).model_root,
            final(self).pending_nodes == old(self).pending_nodes,
    {
        self.animation_state.advance(event, now);
        match event {
            InputEvent::KeyPressing(key) => self.camera_controller.process_keyboard(*key, true),
            InputEvent::KeyUp(key) => self.camera_controller.process_keyboard(*key, false),
            InputEvent::MouseWheel { delta_x, delta_y } => {
                self.camera_controller.process_scroll(*delta_y);
                true
            },
            InputEvent::MouseRightDown => {
                self.mouse_pressed = true;
                true
            },
            InputEvent::MouseRightUp => {
                self.mouse_pressed = false;
                true
            },
            InputEvent::MouseMove { delta_x, delta_y } => {
                let rotating = match self.animation_state.animation_session() {
                    Some(session) => session.is_rotating_using_mouse(),
                    None => false,
                };
                if rotating {
                    self.camera_controller.process_mouse(*delta_x, *delta_y);
                }
                rotating
            },
        }
    }

    /// Prepares the frame that comes at the time `now`: steps the clock of
    /// the session, hands out the motion of the camera, and walks the
    /// default scene afresh for the nodes to show. Where the scene was put
    /// together without a default, some scene of it is walked.
    pub fn update(&mut self, now: u64) -> (frame: FrameUpdate)
        ensures
            final(self).animation_state == ticked(old(self).animation_state, now),
            frame.dt == elapsed(final(self).animation_state),
            frame.motion == old(self).camera_controller,
            final(self).camera_controller == old(self).camera_controller.settled(),
            exists|roots: Seq<Identity>|
                #![trigger starts_from(old(self).model_root, roots)]
                starts_from(old(self).model_root, roots) && is_visible_list(
                    old(self).model_root.nodes@,
                    roots,
                    final(self).pending_nodes@,
                ),
            final(self).model_root == old(self).model_root,
            final(self).target_width == old(self).target_width,
            final(self).target_height == old(self).target_height,
            final(self).mouse_pressed == old(self).mouse_pressed,
    {
        let mut dt: u64 = 0;
        match self.animation_state {
            AnimationState::Idle => {},
            AnimationState::Animating(session) => {
                let prev: u64 = session.now;
                if now >= prev {
                    dt = now - prev;
                }
                self.animation_state = AnimationState::Animating(
                    AnimationSession {
                        pressing_keys: session.pressing_keys,
                        pressing_mouse_buttons: session.pressing_mouse_buttons,
                        prev_time: Some(prev),
                        now,
                    },
                );
            },
        }
        let motion = self.camera_controller.take_motion();
        let ghost roots;
        let visible = match self.model_root.default_scene() {
            Some(scene) => {
                proof {
                    roots = scene.nodes@;
                    if self.model_root.default_scene_id is None {
                        let id = choose|id: Identity|
                            #[trigger] self.model_root.scenes@.contains_key(id) && *scene
                                == self.model_root.scenes@[id];
                        assert(self.model_root.scenes@.dom().contains(id));
                    }
                }
                visible_nodes(&self.model_root.nodes, &scene.nodes)
            },
            None => {
                proof {
                    roots = Seq::empty();
                    lemma_nothing_to_show(self.model_root.nodes@);
                }
                Vec::new()
            },
        };
        proof {
            assert(starts_from(self.model_root, roots));
        }
        self.pending_nodes = visible;
        FrameUpdate { dt, motion }
    }

    /// Lists the draw calls for the nodes that the last update found
    /// visible.
    pub fn render(&self) -> (draws: Vec<DrawCall>)
        ensures
            draws@ == draw_list(self.model_root, self.pending_nodes@, self.pending_nodes@.len()),
    {
        build_draw_list(&self.model_root, &self.pending_nodes)
    }

    /// Ends the frame. Nothing is kept from one frame to the next but what
    /// `update` leaves, so there is nothing to do.
    pub fn end_frame(&mut self)
        ensures
            *final(self) == *old(self),
    {
    }

    pub fn mouse_pressed(&self) -> (pressed: bool)
        ensures
            pressed == self.mouse_pressed,
    {
        self.mouse_pressed
    }

    /// Lends out the camera controller. What the borrower leaves in it is
    /// what the engine holds afterwards; nothing else changes.
    pub fn camera_controller_mut(&mut self) -> (controller: &mut CameraController)
        ensures
            *controller == old(self).camera_controller,
            final(self).camera_controller == *final(controller),
            final(self).animation_state == old(self).animation_state,
            final(self).model_root == old(self).model_root,
            final(self).mouse_pressed == old(self).mouse_pressed,
            final(self).pending_nodes == old(self).pending_nodes,
            final(self).target_width == old(self).target_width,
            final(self).target_height == old(self).target_height,
    {
        &mut self.camera_controller
    }

    pub fn model_root(&self) -> (g: &ImportedGltf)
        ensures
            *g == self.model_root,
    {
        &self.model_root
    }

    /// Whether the scene holds a node under `id`.
    pub open spec fn has_node(self, id: Identity) -> bool {
        self.model_root.nodes@.contains_key(id)
    }

    /// The transform of a node, if the scene holds it.
    pub fn node_transform(&self, id: Identity) -> (t: Option<NodeTransform>)
        ensures
            t == if self.has_node(id) {
                Some(self.model_root.nodes@[id].transform)
            } else {
                None
            },
    {
        broadcast use vstd::std_specs::hash::group_hash_axioms;

        match self.model_root.nodes.get(&id) {
            Some(node) => Some(node.transform),
            None => None,
        }
    }

    /// Gives a node a new transform and tells whether the scene holds the
    /// node. Nothing else of the node, and no other node, changes.
    pub fn set_node_transform(&mut self, id: Identity, transform: NodeTransform) -> (found: bool)
        ensures
            found == old(self).has_node(id),
            found ==> final(self).model_root.nodes@ == old(self).model_root.nodes@.insert(
                id,
                Node { transform, ..old(self).model_root.nodes@[id] },
            ),
            !found ==> final(self).model_root.nodes@ == old(self).model_root.nodes@,
            final(self).model_root.default_scene_id == old(self).model_root.default_scene_id,
            final(self).model_root.scenes == old(self).model_root.scenes,
            final(self).model_root.meshes == old(self).model_root.meshes,
            final(self).model_root.materials == old(self).model_root.materials,
            final(self).animation_state == old(self).animation_state,
            final(self).camera_controller == old(self).camera_controller,
            final(self).mouse_pressed == old(self).mouse_pressed,
            final(self).pending_nodes == old(self).pending_nodes,
            final(self).target_width == old(self).target_width,
            final(self).target_height == old(self).target_height,
    {
        broadcast use vstd::std_specs::hash::group_hash_axioms;

        match self.model_root.nodes.remove(&id) {
            Some(node) => {
                let mut node = node;
                node.transform = transform;
                self.model_root.nodes.insert(id, node);
                assert(self.model_root.nodes@ =~= old(self).model_root.nodes@.insert(
                    id,
                    Node { transform, ..old(self).model_root.nodes@[id] },
                ));
                true
            },
            None => {
                assert(self.model_root.nodes@ =~= old(self).model_root.nodes@);
                false
            },
        }
    }
}

} // verus!
