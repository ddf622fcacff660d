use bevy::input::keyboard::KeyCode;
use bevy::input::Input;
use scene_bootstrap::controller::{desired_displacement, update_controller, ControllerCommand};
use scene_bootstrap::input::{InputState, Key, KeySet};
use scene_bootstrap::scene::{Body, BodyHandle, BodyKind, SceneRegistry};
use scene_bootstrap::units::{Displacement, Scalar};

const SECOND: u32 = 1_000_000;
const UNIT: i128 = 1_000_000_000_000;

fn holding(keys: &[Key]) -> KeySet {
    let mut set = KeySet::empty();
    for key in keys {
        set = set.with(*key);
    }
    set
}

fn snapshot(held: &[Key], fresh: &[Key]) -> InputState {
    InputState { pressed: holding(held), just_pressed: holding(fresh) }
}

#[test]
fn falls_a_hundred_units_in_a_second_without_keys() {
    let d = desired_displacement(&InputState::new(), SECOND, Scalar::zero());
    assert_eq!(d, Displacement { x: 0, y: -100 * UNIT, z: 0 });
}

#[test]
fn jump_edge_offsets_the_fall_for_one_frame() {
    let first = InputState::new().advance(holding(&[Key::W]));
    assert!(first.just_pressed(Key::W));
    let d = desired_displacement(&first, SECOND, Scalar::zero());
    assert_eq!(d.y, 0);

    let second = first.advance(holding(&[Key::W]));
    assert!(second.pressed(Key::W));
    assert!(!second.just_pressed(Key::W));
    let e = desired_displacement(&second, SECOND, Scalar::from_micro(d.y as i64));
    assert_eq!(e.y, -100 * UNIT);

    let third = second.advance(KeySet::empty());
    let f = desired_displacement(&third, SECOND, Scalar::zero());
    assert_eq!(f.y, -100 * UNIT);
}

#[test]
fn crouch_edge_doubles_the_fall() {
    let d = desired_displacement(&snapshot(&[Key::S], &[Key::S]), SECOND, Scalar::zero());
    assert_eq!(d.y, -200 * UNIT);
}

#[test]
fn jump_and_crouch_edges_cancel() {
    let d = desired_displacement(&snapshot(&[], &[Key::W, Key::S]), SECOND, Scalar::zero());
    assert_eq!(d.y, -100 * UNIT);
}

#[test]
fn left_and_right_held_together_cancel() {
    let d = desired_displacement(&snapshot(&[Key::Left, Key::Right], &[]), SECOND, Scalar::zero());
    assert_eq!(d.x, 0);
    assert_eq!(d.z, 0);
}

#[test]
fn up_and_down_held_together_cancel() {
    let d = desired_displacement(&snapshot(&[Key::Up, Key::Down], &[]), 16_667, Scalar::zero());
    assert_eq!(d.z, 0);
}

#[test]
fn each_direction_moves_five_units_a_second() {
    let right = desired_displacement(&snapshot(&[Key::Right], &[]), SECOND, Scalar::zero());
    assert_eq!((right.x, right.z), (5 * UNIT, 0));
    let left = desired_displacement(&snapshot(&[Key::Left], &[]), SECOND, Scalar::zero());
    assert_eq!((left.x, left.z), (-5 * UNIT, 0));
    let down = desired_displacement(&snapshot(&[Key::Down], &[]), SECOND, Scalar::zero());
    assert_eq!((down.x, down.z), (0, 5 * UNIT));
    let up = desired_displacement(&snapshot(&[Key::Up], &[]), SECOND, Scalar::zero());
    assert_eq!((up.x, up.z), (0, -5 * UNIT));
}

#[test]
fn direction_keys_act_while_held_not_on_the_edge() {
    let d = desired_displacement(&snapshot(&[], &[Key::Right, Key::Down]), SECOND, Scalar::zero());
    assert_eq!((d.x, d.z), (0, 0));
    let e = desired_displacement(&snapshot(&[Key::W, Key::S], &[]), SECOND, Scalar::zero());
    assert_eq!(e.y, -100 * UNIT);
}

#[test]
fn a_sixtieth_of_a_second_gives_exact_values() {
    let still = desired_displacement(&snapshot(&[Key::Right, Key::Up], &[]), 16_667, Scalar::zero());
    assert_eq!(still, Displacement { x: 83_335_000_000, y: -1_666_700_000_000, z: -83_335_000_000 });
    let jump = desired_displacement(&snapshot(&[], &[Key::W]), 16_667, Scalar::zero());
    assert_eq!(jump.y, -1_638_921_111_100);
    let crouch = desired_displacement(&snapshot(&[], &[Key::S]), 16_667, Scalar::zero());
    assert_eq!(crouch.y, -1_694_478_888_900);
}

#[test]
fn accumulator_start_enters_the_formula() {
    let start = Scalar::from_micro(2_500_000);
    let d = desired_displacement(&InputState::new(), SECOND, start);
    assert_eq!(d.y, -75 * UNIT);
    let e = desired_displacement(&snapshot(&[], &[Key::W]), SECOND, start);
    assert_eq!(e.y, 25 * UNIT);
}

#[test]
fn zero_time_gives_zero_displacement() {
    let d = desired_displacement(&snapshot(&[Key::Right], &[Key::W]), 0, Scalar::from_micro(7));
    assert_eq!(d, Displacement { x: 0, y: 0, z: 0 });
}

#[test]
fn extreme_inputs_do_not_overflow() {
    let d = desired_displacement(
        &snapshot(&[Key::Left], &[Key::S]),
        u32::MAX,
        Scalar::from_micro(i64::MIN),
    );
    assert_eq!(d.y, -396_140_814_324_191_870_840_633_696_100);
    assert_eq!(d.x, -5_000_000 * (u32::MAX as i128));
}

#[test]
fn advance_marks_only_newly_held_keys() {
    let first = InputState::new().advance(holding(&[Key::Right, Key::W]));
    assert_eq!(first.pressed, holding(&[Key::Right, Key::W]));
    assert_eq!(first.just_pressed, holding(&[Key::Right, Key::W]));
    let second = first.advance(holding(&[Key::Right, Key::S]));
    assert_eq!(second.pressed, holding(&[Key::Right, Key::S]));
    assert_eq!(second.just_pressed, holding(&[Key::S]));
    let third = second.advance(KeySet::empty());
    assert_eq!(third, InputState::new());
    let fourth = third.advance(holding(&[Key::Right]));
    assert!(fourth.just_pressed(Key::Right));
}

#[test]
fn key_set_holds_what_was_added() {
    let set = KeySet::empty().with(Key::Up).with(Key::S);
    assert!(set.contains(Key::Up));
    assert!(set.contains(Key::S));
    assert!(!set.contains(Key::Down));
    assert!(!set.contains(Key::W));
    assert!(!set.contains(Key::Left));
    assert!(!set.contains(Key::Right));
    assert_eq!(set.with(Key::Up), set);
}

#[test]
fn snapshot_is_taken_from_the_keyboard_state() {
    let mut keyboard: Input<KeyCode> = Input::default();
    assert_eq!(InputState::from_source(&keyboard), InputState::new());

    keyboard.press(KeyCode::Right);
    keyboard.press(KeyCode::W);
    keyboard.press(KeyCode::A);
    let first = InputState::from_source(&keyboard);
    assert_eq!(first.pressed, holding(&[Key::Right, Key::W]));
    assert_eq!(first.just_pressed, holding(&[Key::Right, Key::W]));

    keyboard.clear();
    keyboard.press(KeyCode::Up);
    let second = InputState::from_source(&keyboard);
    assert_eq!(second.pressed, holding(&[Key::Right, Key::W, Key::Up]));
    assert_eq!(second.just_pressed, holding(&[Key::Up]));

    keyboard.clear();
    keyboard.release(KeyCode::Right);
    keyboard.press(KeyCode::S);
    keyboard.press(KeyCode::Left);
    keyboard.press(KeyCode::Down);
    let third = InputState::from_source(&keyboard);
    assert_eq!(third.pressed, holding(&[Key::W, Key::Up, Key::S, Key::Left, Key::Down]));
    assert_eq!(third.just_pressed, holding(&[Key::S, Key::Left, Key::Down]));
}

#[test]
fn a_key_tapped_within_a_frame_counts_as_just_pressed() {
    let mut keyboard: Input<KeyCode> = Input::default();
    keyboard.press(KeyCode::W);
    keyboard.release(KeyCode::W);
    let state = InputState::from_source(&keyboard);
    assert!(!state.pressed(Key::W));
    assert!(state.just_pressed(Key::W));
    assert_eq!(desired_displacement(&state, SECOND, Scalar::zero()).y, 0);
}

#[test]
fn keyboard_state_drives_the_controller() {
    let mut keyboard: Input<KeyCode> = Input::default();
    keyboard.press(KeyCode::Left);
    keyboard.press(KeyCode::Right);
    keyboard.press(KeyCode::Down);
    let d = desired_displacement(&InputState::from_source(&keyboard), SECOND, Scalar::zero());
    assert_eq!(d, Displacement { x: 0, y: -100 * UNIT, z: 5 * UNIT });
}

#[test]
fn updater_writes_the_slot_of_the_controlled_body() {
    let mut registry = SceneRegistry::new();
    let fixed = Body::builder(BodyKind::Fixed).build(&mut registry);
    let controlled = Body::builder(BodyKind::KinematicControlled).build(&mut registry);
    let dynamic = Body::builder(BodyKind::Dynamic).build(&mut registry);
    assert_eq!(registry.sole_controlled(), Ok(controlled));
    let before = (registry.body(fixed), registry.body(dynamic));

    let input = snapshot(&[Key::Right], &[Key::W]);
    let command = update_controller(&mut registry, &input, SECOND);
    let expected = Displacement { x: 5 * UNIT, y: 0, z: 0 };
    assert_eq!(command, ControllerCommand { displacement: expected });
    assert_eq!(registry.body(controlled).unwrap().pending, Some(expected));
    assert_eq!((registry.body(fixed), registry.body(dynamic)), before);

    let next = update_controller(&mut registry, &InputState::new(), SECOND);
    assert_eq!(next.displacement.y, -100 * UNIT);
    assert_eq!(registry.body(controlled).unwrap().pending, Some(next.displacement));
    assert_eq!(registry.take_pending(controlled), Some(next.displacement));
    assert_eq!(registry.take_pending(controlled), None);
    assert_eq!(registry.take_pending(BodyHandle { index: 17 }), None);
}
