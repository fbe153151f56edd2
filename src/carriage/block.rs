//! Rectangular bodies: the carriage, the joiner and the pendulum.
use vstd::prelude::*;
use crate::geometry::Position;

verus! {

/// A box-shaped dynamic body. Its extents are halves, as the physics engine
/// takes them: the box is `2 * half_length` wide and `2 * half_height` tall.
#[derive(Clone, Copy, Debug, PartialEq, Eq, Structural)]
pub struct Config {
    pub half_length: i32,
    pub half_height: i32,
    pub initial_position: Position,
}

impl Config {
    /// The full width of the box.
    pub fn length(&self) -> (r: i64)
        ensures
            r == 2 * self.half_length,
    {
        2 * self.half_length as i64
    }

    /// The full height of the box.
    pub fn height(&self) -> (r: i64)
        ensures
            r == 2 * self.half_height,
    {
        2 * self.half_height as i64
    }
}

} // verus!
