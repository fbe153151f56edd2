//! The carriage: a box on two wheels, with the pendulum mounted on top.
use vstd::prelude::*;

pub mod block;
pub mod pendulum;
pub mod wheel;

use crate::geometry::{Joint, Position};

verus! {

/// Distance between the two wheels' centres.
pub const WHEEL_BASE: i32 = 100;

/// Radius of each wheel.
pub const WHEEL_RADIUS: i32 = 10;

/// Width of the carriage: the wheel base and a little more.
pub const CARRIAGE_LENGTH: i32 = WHEEL_BASE + 10;

/// Height of the carriage.
pub const CARRIAGE_HEIGHT: i32 = 10;

/// Width of the pendulum block.
pub const PENDULUM_LENGTH: i32 = CARRIAGE_HEIGHT;

/// Height of the pendulum block.
pub const PENDULUM_HEIGHT: i32 = CARRIAGE_LENGTH;

/// Height at which the carriage and the wheels start.
pub const Y_ZERO: i32 = 50;

/// Height at which the pendulum's centre starts: `Y_ZERO`, plus half the
/// pendulum's height, plus the joiner's height (three pendulum widths).
pub const PENDULUM_OFFSET: i32 = 135;

/// Restitution and friction of the wheels, in thousandths.
pub const WHEEL_RESTITUTION: u32 = 1_000;

pub const WHEEL_FRICTION: u32 = 1_000;

/// Every body and joint of the carriage.
#[derive(Clone, Copy, Debug, PartialEq, Eq, Structural)]
pub struct Layout {
    pub carriage: block::Config,
    pub left_wheel: wheel::Config,
    pub right_wheel: wheel::Config,
    pub left_axle: Joint,
    pub right_axle: Joint,
    pub pendulum: pendulum::Assembly,
}

/// A wheel of the carriage, centred `x` from the carriage's centre and drawn
/// in front of it.
pub open spec fn wheel_at(x: i32) -> wheel::Config {
    wheel::Config {
        radius: WHEEL_RADIUS,
        initial_position: Position { x, y: Y_ZERO, z: 1 },
        restitution: WHEEL_RESTITUTION,
        friction: WHEEL_FRICTION,
    }
}

/// The carriage as it is set up.
pub open spec fn layout_spec() -> Layout {
    let left_wheel = wheel_at((-(WHEEL_BASE / 2)) as i32);
    let right_wheel = wheel_at((WHEEL_BASE / 2) as i32);
    Layout {
        carriage: block::Config {
            half_length: (CARRIAGE_LENGTH / 2) as i32,
            half_height: (CARRIAGE_HEIGHT / 2) as i32,
            initial_position: Position { x: 0, y: Y_ZERO, z: 0 },
        },
        left_wheel,
        right_wheel,
        left_axle: wheel::axle_spec(left_wheel),
        right_axle: wheel::axle_spec(right_wheel),
        pendulum: pendulum::assembly_spec(
            block::Config {
                half_length: (PENDULUM_LENGTH / 2) as i32,
                half_height: (PENDULUM_HEIGHT / 2) as i32,
                initial_position: Position { x: 0, y: PENDULUM_OFFSET, z: 0 },
            },
        ),
    }
}

/// The carriage, its two wheels one wheel base apart and level with it, and
/// the pendulum standing on top.
pub fn layout() -> (l: Layout)
    ensures
        l == layout_spec(),
        l.right_wheel.initial_position.x - l.left_wheel.initial_position.x == WHEEL_BASE,
        l.left_wheel.initial_position.x == -l.right_wheel.initial_position.x,
        l.left_wheel.initial_position.y == l.carriage.initial_position.y,
        l.right_wheel.initial_position.y == l.carriage.initial_position.y,
        2 * l.carriage.half_length == CARRIAGE_LENGTH,
        2 * l.carriage.half_height == CARRIAGE_HEIGHT,
        2 * l.pendulum.pendulum.half_length == PENDULUM_LENGTH,
        2 * l.pendulum.pendulum.half_height == PENDULUM_HEIGHT,
        l.pendulum.pendulum.initial_position.y == Y_ZERO + PENDULUM_HEIGHT / 2 + 3
            * PENDULUM_LENGTH,
{
    let left_wheel = wheel::Config {
        radius: WHEEL_RADIUS,
        initial_position: Position { x: -(WHEEL_BASE / 2), y: Y_ZERO, z: 1 },
        restitution: WHEEL_RESTITUTION,
        friction: WHEEL_FRICTION,
    };
    let right_wheel = wheel::Config {
        initial_position: Position { x: WHEEL_BASE / 2, y: Y_ZERO, z: 1 },
        ..left_wheel
    };
    let carriage = block::Config {
        half_length: (CARRIAGE_LENGTH / 2) as i32,
        half_height: (CARRIAGE_HEIGHT / 2) as i32,
        initial_position: Position { x: 0, y: Y_ZERO, z: 0 },
    };
    let pendulum_block = block::Config {
        half_length: (PENDULUM_LENGTH / 2) as i32,
        half_height: (PENDULUM_HEIGHT / 2) as i32,
        initial_position: Position { x: 0, y: PENDULUM_OFFSET, z: 0 },
    };
    let left_axle = wheel::axle(&left_wheel);
    let right_axle = wheel::axle(&right_wheel);
    let pendulum = pendulum::assembly(pendulum_block);
    Layout { carriage, left_wheel, right_wheel, left_axle, right_axle, pendulum }
}

} // verus!
