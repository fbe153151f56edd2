//! A wheeled carriage carrying an inverted pendulum: the rules that decide
//! its layout, its collision categories and the torque applied to its wheels.
//!
//! Lengths and positions are whole pixels; friction and restitution
//! coefficients are in thousandths; angular velocities and torques use the
//! fixed-point scales of [`control`].
use vstd::prelude::*;

pub mod carriage;
pub mod collision_group;
pub mod control;
pub mod geometry;
pub mod ground;

verus! {

/// The application-level plugin that sets up the ground and the carriage
/// and steers the wheels every frame.
pub struct PendulumPlugin;

} // verus!
