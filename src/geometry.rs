//! Placements, anchor points and joints, in whole pixels.
use vstd::prelude::*;

verus! {

/// Where a body starts: its centre in the plane, and `z`, its drawing depth.
#[derive(Clone, Copy, Debug, PartialEq, Eq, Structural)]
pub struct Position {
    pub x: i32,
    pub y: i32,
    pub z: i32,
}

/// A point in a body's own frame, relative to its centre.
#[derive(Clone, Copy, Debug, PartialEq, Eq, Structural)]
pub struct Offset {
    pub x: i32,
    pub y: i32,
}

/// How a joint lets its two bodies move relative to each other.
#[derive(Clone, Copy, Debug, PartialEq, Eq, Structural)]
pub enum JointKind {
    /// No relative motion at all.
    Fixed,
    /// Free rotation about the shared anchor point.
    Revolute,
}

/// A joint between a first body (the one it hangs from) and a second body:
/// `anchor1` in the first body's frame is held to `anchor2` in the second's.
#[derive(Clone, Copy, Debug, PartialEq, Eq, Structural)]
pub struct Joint {
    pub kind: JointKind,
    pub anchor1: Offset,
    pub anchor2: Offset,
}

/// The centre of a body's own frame.
pub open spec fn centre() -> Offset {
    Offset { x: 0, y: 0 }
}

} // verus!
