//! The floor: a static box that every other body rests on.
use vstd::prelude::*;
use crate::geometry::Position;

verus! {

/// A static box-shaped body, with half extents as for `block::Config`.
#[derive(Clone, Copy, Debug, PartialEq, Eq, Structural)]
pub struct Config {
    pub half_length: i32,
    pub half_height: i32,
    pub initial_position: Position,
    /// Friction coefficient, in thousandths.
    pub friction: u32,
}

/// The ground as it is set up: 1000 by 100 pixels, its centre 100 pixels
/// below the origin, and very rough (friction 100).
pub open spec fn config_spec() -> Config {
    Config {
        half_length: 500,
        half_height: 50,
        initial_position: Position { x: 0, y: -100i32, z: 0 },
        friction: 100_000,
    }
}

/// The ground's shape, placement and friction.
pub fn config() -> (c: Config)
    ensures
        c == config_spec(),
{
    Config {
        half_length: 500,
        half_height: 50,
        initial_position: Position { x: 0, y: -100, z: 0 },
        friction: 100_000,
    }
}

} // verus!
