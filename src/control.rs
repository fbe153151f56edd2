//! Keyboard-driven torque for a wheel, tapered to nothing as the wheel
//! approaches a maximum angular velocity in the pushed direction.
use vstd::prelude::*;

verus! {

/// Fixed-point units per radian per second.
pub const ANGULAR_VELOCITY_SCALE: i32 = 1_000;

/// Fixed-point units per unit of torque.
pub const TORQUE_SCALE: i32 = 1_000_000;

/// The angular velocity at which a wheel counts as saturated (10 rad/s).
pub const MAX_ANGULAR_VELOCITY: i32 = 10 * ANGULAR_VELOCITY_SCALE;

/// The torque applied when the wheel has its whole capacity left: 0.1,
/// stored in units of `1 / TORQUE_SCALE`.
pub const MAX_TORQUE: i32 = 100_000;

/// `MAX_TORQUE / MAX_ANGULAR_VELOCITY`: the torque that one unit of
/// `torque_share` stands for.
pub const TORQUE_PER_SHARE: i32 = 10;

/// Which of the steering keys are held down in this frame.
#[derive(Clone, Copy, Debug, PartialEq, Eq, Structural)]
pub struct Keys {
    pub left: bool,
    pub right: bool,
    pub down: bool,
}

/// The angular velocity as a share of `MAX_ANGULAR_VELOCITY`, clamped to
/// [-1, 1] and expressed in units of `1 / MAX_ANGULAR_VELOCITY`.
pub open spec fn proportion(angular_velocity: int) -> int {
    if angular_velocity > MAX_ANGULAR_VELOCITY {
        MAX_ANGULAR_VELOCITY as int
    } else if angular_velocity < -MAX_ANGULAR_VELOCITY {
        -MAX_ANGULAR_VELOCITY
    } else {
        angular_velocity
    }
}

/// Capacity left for spinning further in the positive direction:
/// `1 - max(proportion, 0)`, in the same units as `proportion`.
pub open spec fn positive_residual(angular_velocity: int) -> int {
    let p = proportion(angular_velocity);
    MAX_ANGULAR_VELOCITY - (if p > 0 { p } else { 0 })
}

/// Capacity left for spinning further in the negative direction:
/// `1 + min(proportion, 0)`, in the same units as `proportion`.
pub open spec fn negative_residual(angular_velocity: int) -> int {
    let p = proportion(angular_velocity);
    MAX_ANGULAR_VELOCITY + (if p < 0 { p } else { 0 })
}

/// The commanded torque as a share of `MAX_TORQUE`, in units of
/// `1 / MAX_ANGULAR_VELOCITY`. Keys are looked at in the order left, right,
/// down, and a later key overrides an earlier one.
pub open spec fn torque_share(angular_velocity: int, keys: Keys) -> int {
    if keys.down {
        -proportion(angular_velocity)
    } else if keys.right {
        -negative_residual(angular_velocity)
    } else if keys.left {
        positive_residual(angular_velocity)
    } else {
        0
    }
}

/// The commanded torque, in units of `1 / TORQUE_SCALE`.
pub open spec fn torque_of(angular_velocity: int, keys: Keys) -> int {
    torque_share(angular_velocity, keys) * TORQUE_PER_SHARE
}

/// The torque to put on a wheel spinning at `angular_velocity` while `keys`
/// are held: left drives it towards positive spin, right towards negative
/// spin, and down brakes it; each tapers to nothing as the wheel reaches the
/// limit in that direction.
pub fn get_torque(angular_velocity: i32, keys: Keys) -> (torque: i32)
    ensures
        torque == torque_of(angular_velocity as int, keys),
        torque * MAX_ANGULAR_VELOCITY == torque_share(angular_velocity as int, keys) * MAX_TORQUE,
        -MAX_TORQUE <= torque <= MAX_TORQUE,
{
    let velocity_proportion: i32 = if angular_velocity > MAX_ANGULAR_VELOCITY {
        MAX_ANGULAR_VELOCITY
    } else if angular_velocity < -MAX_ANGULAR_VELOCITY {
        -MAX_ANGULAR_VELOCITY
    } else {
        angular_velocity
    };
    let positive_residual: i32 = MAX_ANGULAR_VELOCITY - if velocity_proportion > 0 {
        velocity_proportion
    } else {
        0
    };
    let negative_residual: i32 = MAX_ANGULAR_VELOCITY + if velocity_proportion < 0 {
        velocity_proportion
    } else {
        0
    };

    let mut share: i32 = 0;
    if keys.left {
        share = positive_residual;
    }
    if keys.right {
        share = -negative_residual;
    }
    if keys.down {
        share = -velocity_proportion;
    }
    share * TORQUE_PER_SHARE
}

/// With the left key held, the torque never grows as the wheel spins faster:
/// the faster it already turns in the positive direction, the less it is
/// pushed. (The same holds whichever other keys are held with it.)
pub proof fn lemma_left_torque_non_increasing(slower: int, faster: int, keys: Keys)
    requires
        keys.left,
        slower <= faster,
    ensures
        torque_of(faster, keys) <= torque_of(slower, keys),
{
}

/// The torque depends on the angular velocity and the keys alone: asking
/// again with the same inputs gives the same torque.
pub proof fn lemma_torque_is_pure(v1: int, keys1: Keys, v2: int, keys2: Keys)
    requires
        v1 == v2,
        keys1 == keys2,
    ensures
        torque_of(v1, keys1) == torque_of(v2, keys2),
{
}

} // verus!
