//! What the controller reads from and writes to the simulated rigid body.

use vstd::prelude::*;
use crate::math::{Quat, Vec3};

verus! {

/// Position and orientation of a body.
#[derive(Clone, Copy, Debug, PartialEq, Eq, Structural)]
pub struct Transform {
    pub translation: Vec3,
    pub rotation: Quat,
}

/// Linear and angular velocity of a body, in world space.
#[derive(Clone, Copy, Debug, PartialEq, Eq, Structural)]
pub struct Velocity {
    pub linvel: Vec3,
    pub angvel: Vec3,
}

/// The force and torque applied to a body for one tick, in world space.
#[derive(Clone, Copy, Debug, PartialEq, Eq, Structural)]
pub struct ExternalForce {
    pub force: Vec3,
    pub torque: Vec3,
}

} // verus!
