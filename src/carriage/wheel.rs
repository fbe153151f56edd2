//! The wheels and the axles that hold them to the carriage.
use vstd::prelude::*;
use crate::geometry::{centre, Joint, JointKind, Offset, Position};

verus! {

/// A disc-shaped dynamic body.
#[derive(Clone, Copy, Debug, PartialEq, Eq, Structural)]
pub struct Config {
    pub radius: i32,
    pub initial_position: Position,
    /// Restitution coefficient, in thousandths.
    pub restitution: u32,
    /// Friction coefficient, in thousandths.
    pub friction: u32,
}

/// The axle of a wheel: a revolute joint from the carriage, whose hinge on
/// the carriage side sits at the wheel's horizontal offset from the
/// carriage's centre, to the wheel's own centre.
pub open spec fn axle_spec(config: Config) -> Joint {
    Joint {
        kind: JointKind::Revolute,
        anchor1: Offset { x: config.initial_position.x, y: 0 },
        anchor2: centre(),
    }
}

/// The joint that hangs the wheel of `config` from the carriage, free to
/// turn about a hinge level with the carriage's centre and directly in line
/// with the wheel.
pub fn axle(config: &Config) -> (j: Joint)
    ensures
        j == axle_spec(*config),
{
    Joint {
        kind: JointKind::Revolute,
        anchor1: Offset { x: config.initial_position.x, y: 0 },
        anchor2: Offset { x: 0, y: 0 },
    }
}

} // verus!
