//! Keys, key sets and the per-frame input snapshot.
//!
//! The controller reads two sets of keys each frame: those held down, and those
//! that went down in this frame. The snapshot is taken from the engine's
//! keyboard state, or, for a host that reports held keys only, derived from the
//! snapshot of the frame before.

use bevy::input::keyboard::KeyCode;
use bevy::input::Input;
use vstd::prelude::*;

verus! {

/// The keys that steer the controlled body, each named after the key code of
/// the engine that it stands for.
#[derive(Clone, Copy, Debug, PartialEq, Eq, Hash, Structural)]
pub enum Key {
    Right,
    Left,
    Down,
    Up,
    W,
    S,
}

/// A set of steering keys.
#[derive(Clone, Copy, Debug, PartialEq, Eq, Hash, Structural)]
pub struct KeySet {
    pub right: bool,
    pub left: bool,
    pub down: bool,
    pub up: bool,
    pub w: bool,
    pub s: bool,
}

impl View for KeySet {
    type V = Set<Key>;

    open spec fn view(&self) -> Set<Key> {
        Set::new(|key: Key| self.has(key))
    }
}

impl KeySet {
    /// Whether `key` is in the set.
    pub open spec fn has(&self, key: Key) -> bool {
        match key {
            Key::Right => self.right,
            Key::Left => self.left,
            Key::Down => self.down,
            Key::Up => self.up,
            Key::W => self.w,
            Key::S => self.s,
        }
    }

    /// The set without any key.
    pub fn empty() -> (keys: KeySet)
        ensures
            forall|key: Key| !keys.has(key),
            keys@ == Set::<Key>::empty(),
    {
        let keys = KeySet { right: false, left: false, down: false, up: false, w: false, s: false };
        assert(keys@ =~= Set::<Key>::empty());
        keys
    }

    /// Whether `key` is in the set.
    pub fn contains(&self, key: Key) -> (held: bool)
        ensures
            held == self.has(key),
            held == self@.contains(key),
    {
        match key {
            Key::Right => self.right,
            Key::Left => self.left,
            Key::Down => self.down,
            Key::Up => self.up,
            Key::W => self.w,
            Key::S => self.s,
        }
    }

    /// The set with `key` added.
    pub fn with(self, key: Key) -> (keys: KeySet)
        ensures
            forall|other: Key| keys.has(other) == (other == key || self.has(other)),
            keys@ == self@.insert(key),
    {
        let keys = match key {
            Key::Right => KeySet { right: true, ..self },
            Key::Left => KeySet { left: true, ..self },
            Key::Down => KeySet { down: true, ..self },
            Key::Up => KeySet { up: true, ..self },
            Key::W => KeySet { w: true, ..self },
            Key::S => KeySet { s: true, ..self },
        };
        assert(keys@ =~= self@.insert(key));
        keys
    }
}

/// The engine's `Input<T>`: the pressed, just pressed and just released
/// inputs of one device. Nothing of its inside is known here; it is read
/// through `Input::pressed` and `Input::just_pressed` alone.
#[verifier::external_type_specification]
#[verifier::external_body]
#[verifier::reject_recursive_types(T)]
pub struct ExInput<T: Copy + Eq + core::hash::Hash + Send + Sync + 'static>(Input<T>);

/// The engine's `KeyCode`: the key codes of a keyboard. Values of it are made
/// and used inside the two calls below only.
#[verifier::external_type_specification]
#[verifier::external_body]
pub struct ExKeyCode(KeyCode);

/// The steering keys whose key code the engine's keyboard state holds as pressed.
pub uninterp spec fn held_keys(source: Input<KeyCode>) -> Set<Key>;

/// The steering keys whose key code the engine's keyboard state holds as just pressed.
pub uninterp spec fn fresh_keys(source: Input<KeyCode>) -> Set<Key>;

/// Calls `Input::pressed` of the engine with the key code that `key` is named
/// after. That method says whether the code is in the state's set of pressed
/// inputs, so the result is membership of `key` in `held_keys`.
#[verifier::external_body]
fn source_pressed(source: &Input<KeyCode>, key: Key) -> (held: bool)
    ensures
        held == held_keys(*source).contains(key),
{
    source.pressed(
        match key {
            Key::Right => KeyCode::Right,
            Key::Left => KeyCode::Left,
            Key::Down => KeyCode::Down,
            Key::Up => KeyCode::Up,
            Key::W => KeyCode::W,
            Key::S => KeyCode::S,
        },
    )
}

/// Calls `Input::just_pressed` of the engine with the key code that `key` is
/// named after. That method says whether the code is in the state's set of
/// just pressed inputs, so the result is membership of `key` in `fresh_keys`.
#[verifier::external_body]
fn source_just_pressed(source: &Input<KeyCode>, key: Key) -> (fresh: bool)
    ensures
        fresh == fresh_keys(*source).contains(key),
{
    source.just_pressed(
        match key {
            Key::Right => KeyCode::Right,
            Key::Left => KeyCode::Left,
            Key::Down => KeyCode::Down,
            Key::Up => KeyCode::Up,
            Key::W => KeyCode::W,
            Key::S => KeyCode::S,
        },
    )
}

/// What the input devices report for one frame.
#[derive(Clone, Copy, Debug, PartialEq, Eq, Hash, Structural)]
pub struct InputState {
    /// The keys that are held down.
    pub pressed: KeySet,
    /// The keys that went down in this frame.
    pub just_pressed: KeySet,
}

impl InputState {
    /// The snapshot that follows `self` when the keys `now` are held: a key
    /// has just been pressed when it is held now and was not held before.
    pub open spec fn followed_by(self, now: KeySet) -> InputState {
        InputState {
            pressed: now,
            just_pressed: KeySet {
                right: now.right && !self.pressed.right,
                left: now.left && !self.pressed.left,
                down: now.down && !self.pressed.down,
                up: now.up && !self.pressed.up,
                w: now.w && !self.pressed.w,
                s: now.s && !self.pressed.s,
            },
        }
    }

    /// The snapshot before any key was touched.
    pub fn new() -> (state: InputState)
        ensures
            forall|key: Key| !state.pressed.has(key) && !state.just_pressed.has(key),
    {
        InputState { pressed: KeySet::empty(), just_pressed: KeySet::empty() }
    }

    /// Whether `key` is held down.
    pub fn pressed(&self, key: Key) -> (held: bool)
        ensures
            held == self.pressed.has(key),
    {
        self.pressed.contains(key)
    }

    /// Whether `key` went down in this frame.
    pub fn just_pressed(&self, key: Key) -> (fresh: bool)
        ensures
            fresh == self.just_pressed.has(key),
    {
        self.just_pressed.contains(key)
    }

    /// The snapshot of the next frame, in which the keys `now` are held.
    ///
    /// The snapshot at hand serves as the frame before: a key counts as just
    /// pressed exactly when it is held now and was not held then.
    pub fn advance(&self, now: KeySet) -> (next: InputState)
        ensures
            next == self.followed_by(now),
            next.pressed == now,
            forall|key: Key|
                next.just_pressed.has(key) == (now.has(key) && !self.pressed.has(key)),
    {
        InputState {
            pressed: now,
            just_pressed: KeySet {
                right: now.right && !self.pressed.right,
                left: now.left && !self.pressed.left,
                down: now.down && !self.pressed.down,
                up: now.up && !self.pressed.up,
                w: now.w && !self.pressed.w,
                s: now.s && !self.pressed.s,
            },
        }
    }

    /// Takes the snapshot of this frame from the engine's keyboard state: the
    /// steering keys that it holds as pressed, and those that it holds as just
    /// pressed.
    pub fn from_source(source: &Input<KeyCode>) -> (state: InputState)
        ensures
            state.pressed@ == held_keys(*source),
            state.just_pressed@ == fresh_keys(*source),
    {
        let pressed = KeySet {
            right: source_pressed(source, Key::Right),
            left: source_pressed(source, Key::Left),
            down: source_pressed(source, Key::Down),
            up: source_pressed(source, Key::Up),
            w: source_pressed(source, Key::W),
            s: source_pressed(source, Key::S),
        };
        let just_pressed = KeySet {
            right: source_just_pressed(source, Key::Right),
            left: source_just_pressed(source, Key::Left),
            down: source_just_pressed(source, Key::Down),
            up: source_just_pressed(source, Key::Up),
            w: source_just_pressed(source, Key::W),
            s: source_just_pressed(source, Key::S),
        };
        proof {
            assert forall|key: Key| pressed.has(key) == held_keys(*source).contains(key) by {
                match key {
                    Key::Right => {},
                    Key::Left => {},
                    Key::Down => {},
                    Key::Up => {},
                    Key::W => {},
                    Key::S => {},
                }
            }
            assert forall|key: Key| just_pressed.has(key) == fresh_keys(*source).contains(key) by {
                match key {
                    Key::Right => {},
                    Key::Left => {},
                    Key::Down => {},
                    Key::Up => {},
                    Key::W => {},
                    Key::S => {},
                }
            }
            assert(pressed@ =~= held_keys(*source));
            assert(just_pressed@ =~= fresh_keys(*source));
        }
        InputState { pressed, just_pressed }
    }
}

} // verus!
