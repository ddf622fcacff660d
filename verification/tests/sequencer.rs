use scene_bootstrap::controller::ControllerCommand;
use scene_bootstrap::input::{InputState, Key, KeySet};
use scene_bootstrap::mesh::{tri_mesh_shape, MeshAsset, MeshHandle};
use scene_bootstrap::overlay::Diagnostics;
use scene_bootstrap::scene::{
    BodyHandle, BodyKind, CollisionShape, ConfigError, SceneRegistry,
};
use scene_bootstrap::sequencer::{BootstrapError, Frame, Sequencer};
use scene_bootstrap::state::{LoadState, TransitionWarning};
use scene_bootstrap::units::{Displacement, Scalar};

const UNIT: i128 = 1_000_000_000_000;
const LABEL: &str = "This text changes in the bottom right";

fn floor() -> MeshAsset {
    MeshAsset {
        handle: MeshHandle { id: 1 },
        vertex_count: Some(4),
        indices: Some(vec![0, 1, 2, 2, 3, 0]),
    }
}

fn other_floor() -> MeshAsset {
    MeshAsset { handle: MeshHandle { id: 2 }, vertex_count: Some(3), indices: Some(vec![0, 1, 2]) }
}

fn idle_frame() -> Frame {
    Frame {
        input: InputState::new(),
        dt_micros: 1_000_000,
        diagnostics: Diagnostics { fps: None, frame_time: None },
        delta: Scalar::from_micro(1_000_000),
    }
}

fn floors(registry: &SceneRegistry) -> usize {
    let mut count = 0;
    for index in 0..registry.body_count() {
        let body = registry.body(BodyHandle { index }).unwrap();
        if body.kind == BodyKind::Fixed && matches!(body.shape, Some(CollisionShape::TriMesh(_))) {
            count += 1;
        }
    }
    count
}

fn ready() -> Sequencer {
    let mut sequencer = Sequencer::new();
    assert_eq!(sequencer.assets_loaded(Some(&floor())), Ok(()));
    sequencer
}

#[test]
fn sequencer_starts_loading_with_an_empty_scene() {
    let sequencer = Sequencer::new();
    assert_eq!(sequencer.current_state(), LoadState::Loading);
    assert_eq!(*sequencer.registry(), SceneRegistry::new());
    assert_eq!(sequencer.overlay().as_str(), LABEL);
}

#[test]
fn completion_signal_builds_the_scene() {
    let sequencer = ready();
    assert_eq!(sequencer.current_state(), LoadState::Ready);
    assert_eq!(sequencer.registry().body_count(), 4);
    assert_eq!(floors(sequencer.registry()), 1);
    assert_eq!(sequencer.registry().sole_controlled(), Ok(BodyHandle { index: 3 }));
    assert_eq!(
        sequencer.registry().body(BodyHandle { index: 0 }).unwrap().shape,
        Some(CollisionShape::TriMesh(tri_mesh_shape(&floor()).unwrap()))
    );
}

#[test]
fn duplicate_signal_does_not_spawn_a_second_floor() {
    let mut sequencer = ready();
    let scene = sequencer.registry().clone();
    let refused = Err(BootstrapError::Rejected(TransitionWarning {
        from: LoadState::Ready,
        to: LoadState::Ready,
    }));
    assert_eq!(sequencer.assets_loaded(Some(&floor())), refused);
    assert_eq!(sequencer.assets_loaded(Some(&other_floor())), refused);
    assert_eq!(sequencer.assets_loaded(None), refused);
    assert_eq!(sequencer.current_state(), LoadState::Ready);
    assert_eq!(*sequencer.registry(), scene);
    assert_eq!(floors(sequencer.registry()), 1);
    assert_eq!(sequencer.registry().body_count(), 4);
    assert_eq!(sequencer.registry().material_count(), 3);

    assert_eq!(sequencer.transition_to(LoadState::InGame, None), Ok(()));
    assert_eq!(
        sequencer.assets_loaded(Some(&floor())),
        Err(BootstrapError::Rejected(TransitionWarning {
            from: LoadState::InGame,
            to: LoadState::Ready
        }))
    );
    assert_eq!(*sequencer.registry(), scene);
}

#[test]
fn unresolved_floor_is_fatal_and_leaves_the_sequencer_loading() {
    let mut sequencer = Sequencer::new();
    assert_eq!(
        sequencer.assets_loaded(None),
        Err(BootstrapError::Config(ConfigError::MeshUnresolved))
    );
    assert_eq!(sequencer.current_state(), LoadState::Loading);
    assert_eq!(sequencer.registry().body_count(), 0);
}

#[test]
fn degenerate_floor_is_fatal_and_leaves_the_sequencer_loading() {
    let mut sequencer = Sequencer::new();
    let empty = MeshAsset { handle: MeshHandle { id: 1 }, vertex_count: Some(0), indices: Some(vec![]) };
    assert_eq!(
        sequencer.assets_loaded(Some(&empty)),
        Err(BootstrapError::Config(ConfigError::DegenerateMesh))
    );
    assert_eq!(sequencer.current_state(), LoadState::Loading);
    assert_eq!(*sequencer.registry(), SceneRegistry::new());
    assert_eq!(sequencer.frame(&idle_frame()), None);
    assert_eq!(sequencer.assets_loaded(Some(&floor())), Ok(()));
    assert_eq!(floors(sequencer.registry()), 1);
}

#[test]
fn transitions_out_of_order_are_refused_before_the_mesh_is_looked_at() {
    let mut sequencer = Sequencer::new();
    assert_eq!(
        sequencer.transition_to(LoadState::InGame, None),
        Err(BootstrapError::Rejected(TransitionWarning {
            from: LoadState::Loading,
            to: LoadState::InGame
        }))
    );
    assert_eq!(
        sequencer.transition_to(LoadState::Loading, Some(&floor())),
        Err(BootstrapError::Rejected(TransitionWarning {
            from: LoadState::Loading,
            to: LoadState::Loading
        }))
    );
    assert_eq!(sequencer.current_state(), LoadState::Loading);
    assert_eq!(sequencer.registry().body_count(), 0);

    let mut built = ready();
    assert_eq!(
        built.transition_to(LoadState::Loading, None),
        Err(BootstrapError::Rejected(TransitionWarning {
            from: LoadState::Ready,
            to: LoadState::Loading
        }))
    );
    assert_eq!(built.current_state(), LoadState::Ready);
}

#[test]
fn updaters_do_not_run_while_loading() {
    let mut sequencer = Sequencer::new();
    let mut frame = idle_frame();
    frame.input = InputState::new().advance(KeySet::empty().with(Key::Right));
    assert_eq!(sequencer.frame(&frame), None);
    assert_eq!(sequencer.overlay().as_str(), LABEL);
    assert_eq!(*sequencer.registry(), SceneRegistry::new());
    assert_eq!(sequencer.take_command(), None);
}

#[test]
fn frame_in_ready_runs_both_updaters() {
    let mut sequencer = ready();
    let frame = Frame {
        input: InputState::new().advance(KeySet::empty().with(Key::Left).with(Key::W)),
        dt_micros: 1_000_000,
        diagnostics: Diagnostics {
            fps: Some(Scalar::from_micro(59_937_500)),
            frame_time: Some(Scalar::from_micro(16_683_400)),
        },
        delta: Scalar::from_micro(16_667),
    };
    let expected = Displacement { x: -5 * UNIT, y: 0, z: 0 };
    assert_eq!(sequencer.frame(&frame), Some(ControllerCommand { displacement: expected }));
    assert_eq!(
        sequencer.overlay().as_str(),
        "This text changes in the bottom right - 59.9 fps, 16.683 ms/frame"
    );
    assert_eq!(sequencer.registry().body(BodyHandle { index: 3 }).unwrap().pending, Some(expected));
    for index in 0..3 {
        assert_eq!(sequencer.registry().body(BodyHandle { index }).unwrap().pending, None);
    }
    assert_eq!(sequencer.registry().body_count(), 4);

    let fall = Displacement { x: 0, y: -100 * UNIT, z: 0 };
    assert_eq!(sequencer.frame(&idle_frame()), Some(ControllerCommand { displacement: fall }));
    assert_eq!(
        sequencer.overlay().as_str(),
        "This text changes in the bottom right - 0.0 fps, 1.000 ms/frame"
    );
    assert_eq!(sequencer.take_command(), Some(fall));
    assert_eq!(sequencer.take_command(), None);
    assert_eq!(sequencer.registry().body(BodyHandle { index: 3 }).unwrap().pending, None);
}

#[test]
fn updaters_are_gated_on_ready_alone() {
    let mut sequencer = ready();
    assert_eq!(sequencer.transition_to(LoadState::InGame, None), Ok(()));
    assert_eq!(sequencer.current_state(), LoadState::InGame);
    let scene = sequencer.registry().clone();
    assert_eq!(sequencer.frame(&idle_frame()), None);
    assert_eq!(sequencer.overlay().as_str(), LABEL);
    assert_eq!(*sequencer.registry(), scene);
}
