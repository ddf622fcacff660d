//! The kinematic controller updater: from the keys of a frame and the time
//! since the last one to the displacement asked of the controlled body.

use crate::input::{InputState, Key};
use crate::scene::{BodyHandle, ConfigError, SceneRegistry};
use crate::units::{Displacement, Scalar};
use vstd::prelude::*;

verus! {

/// Speed along each horizontal axis, in units per second.
pub const SPEED: i128 = 5;

/// Rate of the bias that a jump or a crouch adds to the vertical accumulator,
/// in units per second.
pub const JUMP_RATE: i128 = 10;

/// Rate of the constant downward bias, in units per second: it scales the
/// vertical displacement and is taken off the accumulator.
pub const FALL_RATE: i128 = 10;

/// The displacement asked of the controlled body for one frame. It is made
/// afresh each frame and handed to the physics collaborator, which sweeps the
/// body by it.
#[derive(Clone, Copy, Debug, PartialEq, Eq, Hash, Structural)]
pub struct ControllerCommand {
    pub displacement: Displacement,
}

/// Displacement along a horizontal axis over `dt` millionths of a second, in
/// millionths of a millionth of a unit. The key of each direction adds its
/// own share: with both held the shares cancel.
pub open spec fn horizontal(dt: int, forward: bool, backward: bool) -> int {
    (if forward {
        dt * SPEED * 1_000_000
    } else {
        0
    }) + (if backward {
        dt * SPEED * 1_000_000 * -1
    } else {
        0
    })
}

/// The vertical accumulator, in millionths of a unit, after the biases of this
/// frame: it starts at `start`, a jump adds and a crouch takes off the jump
/// rate times `dt`.
pub open spec fn accumulated(start: int, dt: int, jump: bool, crouch: bool) -> int {
    start + (if jump {
        dt * JUMP_RATE
    } else {
        0
    }) + (if crouch {
        dt * JUMP_RATE * -1
    } else {
        0
    })
}

/// The vertical displacement that an accumulator of `accumulator` millionths
/// comes to over `dt` millionths of a second: `dt * 10 * (accumulator - 10)`,
/// in millionths of a millionth of a unit.
pub open spec fn vertical(dt: int, accumulator: int) -> int {
    dt * FALL_RATE * (accumulator - FALL_RATE * 1_000_000)
}

/// The displacement of a frame: `x` from the keys Right and Left, `z` from
/// Down and Up, both while held; `y` from the accumulator, which W and S bias
/// only in the frame in which they go down.
pub open spec fn frame_displacement(input: InputState, dt: int, start: int) -> (int, int, int) {
    (
        horizontal(dt, input.pressed.has(Key::Right), input.pressed.has(Key::Left)),
        vertical(
            dt,
            accumulated(start, dt, input.just_pressed.has(Key::W), input.just_pressed.has(Key::S)),
        ),
        horizontal(dt, input.pressed.has(Key::Down), input.pressed.has(Key::Up)),
    )
}

/// With both keys of a horizontal axis held, the displacement along that axis
/// is zero, however long the frame: each key adds its own share, and the two
/// shares cancel.
pub proof fn lemma_opposite_keys_cancel(input: InputState, dt: int, start: int)
    ensures
        input.pressed.has(Key::Right) && input.pressed.has(Key::Left) ==> frame_displacement(
            input,
            dt,
            start,
        ).0 == 0,
        input.pressed.has(Key::Down) && input.pressed.has(Key::Up) ==> frame_displacement(
            input,
            dt,
            start,
        ).2 == 0,
{
}

/// In a frame in which neither W nor S goes down, with the accumulator
/// starting at zero, the body falls at 100 units per second, whatever keys are
/// held: a key that stays down does not bias the accumulator again.
pub proof fn lemma_fall_without_jump(input: InputState, dt: int)
    requires
        !input.just_pressed.has(Key::W),
        !input.just_pressed.has(Key::S),
    ensures
        frame_displacement(input, dt, 0).1 == dt * -100_000_000,
{
    assert(dt * FALL_RATE * (0 - FALL_RATE * 1_000_000) == dt * -100_000_000) by (nonlinear_arith);
}

/// Computes the displacement asked of the controlled body for a frame of
/// `dt_micros` millionths of a second, with the vertical accumulator starting
/// at `start`.
pub fn desired_displacement(input: &InputState, dt_micros: u32, start: Scalar) -> (d: Displacement)
    ensures
        (d.x as int, d.y as int, d.z as int) == frame_displacement(
            *input,
            dt_micros as int,
            start.micro as int,
        ),
{
    let dt: i128 = dt_micros as i128;
    let step: i128 = dt * SPEED * 1_000_000;
    let mut x: i128 = 0;
    if input.pressed(Key::Right) {
        x = x + step;
    }
    if input.pressed(Key::Left) {
        x = x + step * -1;
    }
    let mut z: i128 = 0;
    if input.pressed(Key::Down) {
        z = z + step;
    }
    if input.pressed(Key::Up) {
        z = z + step * -1;
    }
    let bias: i128 = dt * JUMP_RATE;
    let mut accumulator: i128 = start.micro as i128;
    if input.just_pressed(Key::W) {
        accumulator = accumulator + bias;
    }
    if input.just_pressed(Key::S) {
        accumulator = accumulator + bias * -1;
    }
    let rate: i128 = dt * FALL_RATE;
    let excess: i128 = accumulator - FALL_RATE * 1_000_000;
    assert(-0x10_0000_0000_0000_0000_0000_0000 <= rate * excess <= 0x10_0000_0000_0000_0000_0000_0000)
        by (nonlinear_arith)
        requires
            0 <= rate <= 0x10_0000_0000,
            -0x1_0000_0000_0000_0000 <= excess <= 0x1_0000_0000_0000_0000,
    ;
    let y: i128 = rate * excess;
    Displacement { x, y, z }
}

/// The kinematic controller updater: computes this frame's displacement, with
/// the vertical accumulator starting at zero, and writes it into the pending
/// slot of the controlled body.
///
/// The scene must hold exactly one kinematically controlled body;
/// `SceneRegistry::sole_controlled` tells whether it does.
pub fn update_controller(registry: &mut SceneRegistry, input: &InputState, dt_micros: u32) -> (command:
    ControllerCommand)
    requires
        old(registry)@.has_sole_controlled(),
    ensures
        (command.displacement.x as int, command.displacement.y as int, command.displacement.z as int)
            == frame_displacement(*input, dt_micros as int, 0),
        final(registry)@ == old(registry)@.with_pending(
            old(registry)@.controlled_index(),
            Some(command.displacement),
        ),
{
    let found: Result<BodyHandle, ConfigError> = registry.sole_controlled();
    let handle: BodyHandle = match found {
        Ok(handle) => handle,
        Err(_) => {
            proof {
                assert(false);
            }
            BodyHandle { index: 0 }
        },
    };
    proof {
        let chosen = registry@.controlled_index();
        assert(registry@.sole_controlled(chosen));
        assert(chosen == handle.index);
    }
    let displacement: Displacement = desired_displacement(input, dt_micros, Scalar::zero());
    registry.set_pending(handle, displacement);
    ControllerCommand { displacement }
}

} // verus!
