use std::collections::HashMap;

use gltf_engine::command::{EngineCommand, EngineModel, UpdateFloatCommand};
use gltf_engine::engine::{Engine, CAMERA_SENSITIVITY, CAMERA_SPEED};
use gltf_engine::input::{AbstractKey, AnimationState, InputEvent};
use gltf_engine::model::{ImportedGltf, Node, NodeSourceInfo, Scene, SceneSourceInfo};
use gltf_engine::transform::{NodeTransform, Vector3};

fn two_node_scene() -> ImportedGltf {
    let mut nodes = HashMap::new();
    nodes.insert(
        1u128,
        Node {
            id: 1,
            transform: NodeTransform::identity(),
            children: vec![2],
            mesh_id: None,
            source_info: NodeSourceInfo::Gltf { index: 0 },
        },
    );
    nodes.insert(
        2u128,
        Node {
            id: 2,
            transform: NodeTransform::identity(),
            children: vec![],
            mesh_id: None,
            source_info: NodeSourceInfo::Gltf { index: 1 },
        },
    );
    let mut scenes = HashMap::new();
    scenes.insert(
        9u128,
        Scene { id: 9, nodes: vec![1], source_info: SceneSourceInfo::Gltf { index: 0 } },
    );
    ImportedGltf {
        default_scene_id: Some(9),
        scenes,
        nodes,
        meshes: HashMap::new(),
        materials: HashMap::new(),
    }
}

fn edit(node_id: u128, value: f32) -> UpdateFloatCommand {
    UpdateFloatCommand { node_id, value: value.to_bits() }
}

#[test]
fn new_engine_is_at_rest() {
    let engine = Engine::new(two_node_scene(), 640, 480);
    assert_eq!(engine.animation_state, AnimationState::Idle);
    assert_eq!((engine.target_width, engine.target_height), (640, 480));
    assert!(!engine.mouse_pressed());
    assert!(engine.pending_nodes.is_empty());
    assert_eq!(f32::from_bits(CAMERA_SPEED), 4.0);
    assert_eq!(f32::from_bits(CAMERA_SENSITIVITY), 0.4);
    assert_eq!(engine.camera_controller.speed, CAMERA_SPEED);
    assert_eq!(engine.camera_controller.sensitivity, CAMERA_SENSITIVITY);
    assert_eq!(engine.model_root().nodes.len(), 2);
}

#[test]
fn resize_takes_any_new_size_that_is_not_empty() {
    let mut engine = Engine::new(two_node_scene(), 100, 100);
    assert!(!engine.resize(100, 100));
    assert!(!engine.resize(0, 200));
    assert!(!engine.resize(200, 0));
    assert!(!engine.resize(0, 0));
    assert_eq!((engine.target_width, engine.target_height), (100, 100));
    assert!(engine.resize(200, 100));
    assert_eq!((engine.target_width, engine.target_height), (200, 100));
    assert!(engine.resize(200, 300));
    assert_eq!((engine.target_width, engine.target_height), (200, 300));
    assert!(engine.resize(150, 250));
    assert_eq!((engine.target_width, engine.target_height), (150, 250));
    assert!(!engine.resize(150, 250));
    assert_eq!(engine.model_root().nodes.len(), 2);
}

#[test]
fn mouse_turns_the_camera_only_while_the_button_is_held() {
    let mut engine = Engine::new(two_node_scene(), 100, 100);
    let moved = InputEvent::MouseMove { delta_x: 2.0f32.to_bits(), delta_y: 3.0f32.to_bits() };
    assert!(!engine.input(&moved, 1));
    assert_eq!(engine.camera_controller.rotate_horizontal, 0);
    assert!(engine.input(&InputEvent::MouseRightDown, 2));
    assert!(engine.mouse_pressed());
    assert!(engine.input(&moved, 3));
    assert_eq!(f32::from_bits(engine.camera_controller.rotate_horizontal), 2.0);
    assert_eq!(f32::from_bits(engine.camera_controller.rotate_vertical), 3.0);
    assert!(engine.input(&InputEvent::MouseRightUp, 4));
    assert!(!engine.mouse_pressed());
    assert_eq!(engine.animation_state, AnimationState::Idle);
    let again = InputEvent::MouseMove { delta_x: 7.0f32.to_bits(), delta_y: 7.0f32.to_bits() };
    assert!(!engine.input(&again, 5));
    assert_eq!(f32::from_bits(engine.camera_controller.rotate_horizontal), 2.0);
}

#[test]
fn keys_and_wheel_are_always_handled() {
    let mut engine = Engine::new(two_node_scene(), 100, 100);
    assert!(engine.input(&InputEvent::KeyUp(AbstractKey::CameraMoveLeft), 1));
    assert_eq!(engine.animation_state, AnimationState::Idle);
    assert!(engine.input(&InputEvent::KeyPressing(AbstractKey::CameraMoveLeft), 2));
    assert_eq!(f32::from_bits(engine.camera_controller.amount_left), 1.0);
    let wheel = InputEvent::MouseWheel { delta_x: 9.0f32.to_bits(), delta_y: 1.5f32.to_bits() };
    assert!(engine.input(&wheel, 3));
    assert_eq!(f32::from_bits(engine.camera_controller.scroll), -1.5);
}

#[test]
fn time_passes_only_within_a_session() {
    let mut engine = Engine::new(two_node_scene(), 100, 100);
    assert_eq!(engine.update(1_000).dt, 0);
    engine.input(&InputEvent::KeyPressing(AbstractKey::CameraMoveForward), 2_000);
    assert_eq!(engine.update(2_500).dt, 500);
    assert_eq!(engine.update(2_600).dt, 100);
    assert_eq!(engine.update(2_600).dt, 0);
    assert_eq!(engine.update(2_000).dt, 0);
    engine.input(&InputEvent::KeyUp(AbstractKey::CameraMoveForward), 3_000);
    assert_eq!(engine.update(9_000).dt, 0);
}

#[test]
fn update_hands_out_the_motion_and_lists_the_nodes() {
    let mut engine = Engine::new(two_node_scene(), 100, 100);
    engine.input(&InputEvent::MouseRightDown, 0);
    engine.input(&InputEvent::MouseMove { delta_x: 2.0f32.to_bits(), delta_y: 3.0f32.to_bits() }, 1);
    let frame = engine.update(10);
    assert_eq!(f32::from_bits(frame.motion.rotate_horizontal), 2.0);
    assert_eq!(engine.camera_controller.rotate_horizontal, 0);
    let order: Vec<u128> = engine.pending_nodes.iter().map(|v| v.node).collect();
    assert_eq!(order, vec![1, 2]);
    assert_eq!(engine.pending_nodes[1].parent, Some(0));
    assert!(engine.render().is_empty());
    engine.end_frame();
    assert_eq!(engine.pending_nodes.len(), 2);
}

#[test]
fn scene_without_default_falls_back_to_a_scene_of_the_table() {
    let mut g = two_node_scene();
    g.default_scene_id = None;
    assert_eq!(g.default_scene().unwrap().id, 9);
    let mut engine = Engine::new(g, 100, 100);
    engine.update(0);
    assert_eq!(engine.pending_nodes.len(), 2);

    let mut g = two_node_scene();
    g.default_scene_id = None;
    g.scenes.insert(
        10,
        Scene { id: 10, nodes: vec![2], source_info: SceneSourceInfo::SomethingElse },
    );
    let chosen = g.default_scene().unwrap().id;
    assert!(chosen == 9 || chosen == 10);
    let mut engine = Engine::new(g, 100, 100);
    engine.update(0);
    assert_eq!(engine.pending_nodes.len(), if chosen == 9 { 2 } else { 1 });
}

#[test]
fn scene_whose_default_is_missing_shows_nothing() {
    let mut g = two_node_scene();
    g.default_scene_id = Some(8);
    assert!(g.default_scene().is_none());
    let mut engine = Engine::new(g, 100, 100);
    engine.update(0);
    assert!(engine.pending_nodes.is_empty());

    let mut g = two_node_scene();
    g.default_scene_id = None;
    g.scenes.clear();
    assert!(g.default_scene().is_none());
    let mut engine = Engine::new(g, 100, 100);
    engine.update(0);
    assert!(engine.pending_nodes.is_empty());
}

#[test]
fn camera_controller_can_be_borrowed() {
    let mut engine = Engine::new(two_node_scene(), 100, 100);
    engine.camera_controller_mut().process_scroll(1.0f32.to_bits());
    assert_eq!(f32::from_bits(engine.camera_controller.scroll), -1.0);
}

#[test]
fn edits_replace_one_component() {
    let mut model = EngineModel::new(Engine::new(two_node_scene(), 100, 100));
    assert!(model.process_command(EngineCommand::UpdatePositionX(edit(2, 1.0)), 0));
    assert!(model.process_command(EngineCommand::UpdatePositionY(edit(2, 2.0)), 0));
    assert!(model.process_command(EngineCommand::UpdatePositionZ(edit(2, 3.0)), 0));
    assert!(model.process_command(EngineCommand::UpdateScaleX(edit(2, 4.0)), 0));
    assert!(model.process_command(EngineCommand::UpdateScaleY(edit(2, 5.0)), 0));
    assert!(model.process_command(EngineCommand::UpdateScaleZ(edit(2, 6.0)), 0));
    let t = model.engine().node_transform(2).unwrap();
    let floats = |v: Vector3| [f32::from_bits(v.x), f32::from_bits(v.y), f32::from_bits(v.z)];
    assert_eq!(floats(t.position), [1.0, 2.0, 3.0]);
    assert_eq!(floats(t.scale), [4.0, 5.0, 6.0]);
    assert_eq!(t.rotation, NodeTransform::identity().rotation);
    assert_eq!(model.engine().node_transform(1), Some(NodeTransform::identity()));
    assert_eq!(model.engine().model_root().nodes[&2].id, 2);
    assert_eq!(model.engine().model_root().nodes[&1].children, vec![2]);
}

#[test]
fn edit_of_an_unknown_node_changes_nothing() {
    let mut model = EngineModel::new(Engine::new(two_node_scene(), 100, 100));
    assert!(!model.process_command(EngineCommand::UpdateScaleX(edit(5, 0.0)), 0));
    assert_eq!(model.engine().model_root().nodes.len(), 2);
    assert_eq!(model.engine().node_transform(5), None);
}

#[test]
fn scale_edited_to_zero_and_back() {
    let mut model = EngineModel::new(Engine::new(two_node_scene(), 100, 100));
    model.process_command(EngineCommand::UpdateScaleY(edit(1, 0.0)), 0);
    model.engine.update(0);
    assert!(model.engine.pending_nodes.is_empty());
    model.process_command(EngineCommand::UpdateScaleY(edit(1, 1.0)), 0);
    model.engine.update(0);
    assert_eq!(model.engine.pending_nodes.len(), 2);
}

#[test]
fn input_commands_reach_the_engine() {
    let mut model = EngineModel::new(Engine::new(two_node_scene(), 100, 100));
    let press = EngineCommand::InputEvent(InputEvent::KeyPressing(AbstractKey::CameraMoveUp));
    assert!(model.process_command(press, 7));
    assert_eq!(f32::from_bits(model.engine().camera_controller.amount_up), 1.0);
    assert!(model.engine().animation_state.animation_session().is_some());
    assert_eq!(press.target(), None);
    assert_eq!(EngineCommand::UpdateScaleX(edit(5, 0.0)).target(), Some(5));
}
