//! The pendulum: a joiner block fixed to the carriage, and the pendulum
//! block hinged on top of the joiner.
use vstd::prelude::*;
use crate::carriage::block;
use crate::geometry::{centre, Joint, JointKind, Offset, Position};

verus! {

/// The two blocks of the pendulum and the two joints that hold them.
#[derive(Clone, Copy, Debug, PartialEq, Eq, Structural)]
pub struct Assembly {
    /// The short block between the carriage and the pendulum.
    pub joiner: block::Config,
    /// The swinging block.
    pub pendulum: block::Config,
    /// Holds the bottom of the joiner rigidly to the carriage's centre;
    /// its first body is the joiner, its second the carriage.
    pub joiner_pin: Joint,
    /// Lets the pendulum swing about the top of the joiner; its first body
    /// is the joiner, its second the pendulum.
    pub pivot: Joint,
}

/// The joiner that carries a pendulum of `pendulum`'s shape: as wide as the
/// pendulum, three times as tall as it is wide, and placed one pendulum
/// width above the pendulum's starting centre.
pub open spec fn joiner_spec(pendulum: block::Config) -> block::Config {
    block::Config {
        half_length: pendulum.half_length,
        half_height: (3 * pendulum.half_length) as i32,
        initial_position: Position {
            x: 0,
            y: (2 * pendulum.half_length + pendulum.initial_position.y) as i32,
            z: 0,
        },
    }
}

/// The whole assembly for a pendulum of `pendulum`'s shape and position.
pub open spec fn assembly_spec(pendulum: block::Config) -> Assembly {
    let joiner = joiner_spec(pendulum);
    Assembly {
        joiner,
        pendulum,
        joiner_pin: Joint {
            kind: JointKind::Fixed,
            anchor1: Offset { x: 0, y: (-joiner.half_height) as i32 },
            anchor2: centre(),
        },
        pivot: Joint {
            kind: JointKind::Revolute,
            anchor1: Offset { x: 0, y: joiner.half_height },
            anchor2: Offset { x: 0, y: (-pendulum.half_height) as i32 },
        },
    }
}

/// Builds the joiner and the two joints for the pendulum block `pendulum`:
/// the joiner's bottom is pinned to the carriage, and the pendulum's bottom
/// end turns about the joiner's top.
pub fn assembly(pendulum: block::Config) -> (a: Assembly)
    requires
        -i32::MAX <= 3 * pendulum.half_length <= i32::MAX,
        i32::MIN <= 2 * pendulum.half_length + pendulum.initial_position.y <= i32::MAX,
        pendulum.half_height > i32::MIN,
    ensures
        a == assembly_spec(pendulum),
        a.joiner.half_length == pendulum.half_length,
        a.joiner.half_height == 3 * pendulum.half_length,
        a.pendulum == pendulum,
        a.joiner_pin.anchor1.y == -a.joiner.half_height,
        a.pivot.anchor1.y == a.joiner.half_height,
        a.pivot.anchor2.y == -a.pendulum.half_height,
{
    let joiner_half_height: i32 = 3 * pendulum.half_length;
    let joiner = block::Config {
        half_length: pendulum.half_length,
        half_height: joiner_half_height,
        initial_position: Position {
            x: 0,
            y: 2 * pendulum.half_length + pendulum.initial_position.y,
            z: 0,
        },
    };
    let joiner_pin = Joint {
        kind: JointKind::Fixed,
        anchor1: Offset { x: 0, y: -joiner_half_height },
        anchor2: Offset { x: 0, y: 0 },
    };
    let pivot = Joint {
        kind: JointKind::Revolute,
        anchor1: Offset { x: 0, y: joiner_half_height },
        anchor2: Offset { x: 0, y: -pendulum.half_height },
    };
    Assembly { joiner, pendulum, joiner_pin, pivot }
}

} // verus!
