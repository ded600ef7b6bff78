//! The chase camera: where it starts, how it closes in on the car, and the
//! box around the car that it is kept in.
//!
//! Distances between eye and target are handed in by the caller, who
//! measures them; nothing here takes a square root.

use vstd::prelude::*;
use crate::car::{car_start_position, start_position, CAR_START_X, CAR_START_Y, CAR_START_Z};
use crate::fixed::{fixed_mul, narrow, saturate, wide_mul};
use crate::math::{Vec3, Vector};

verus! {

pub const CAMERA_OFFSET_X: i64 = -32_000_000;

pub const CAMERA_OFFSET_Y: i64 = 16_000_000;

pub const CAMERA_OFFSET_Z: i64 = -8_000_000;

/// The distance beyond which the camera closes in on the car.
pub const FAR_DISTANCE: i64 = 60_000_000;

/// The shortest distance at which the camera is kept in the box.
pub const NEAR_DISTANCE: i64 = 40_000_000;

/// The distance that the camera closes in to.
pub const TARGET_DISTANCE: i64 = 50_000_000;

/// The share of the current distance that is kept in one step of closing
/// in.
pub const KEPT_SHARE: i64 = 950_000;

/// The share of the target distance that is added in one step of closing
/// in.
pub const TARGET_SHARE: i64 = 50_000;

/// Half the side of the box around the car, along x and z.
pub const SIDE_RANGE: i64 = 40_000_000;

/// How far above the car the camera stays at least.
pub const MIN_HEIGHT: i64 = 10_000_000;

/// Where the camera is and what it looks at.
#[derive(Clone, Copy, Debug, PartialEq, Eq, Structural)]
pub struct LookTransform {
    pub eye: Vec3,
    pub target: Vec3,
}

/// Where the camera starts relative to the car.
pub open spec fn camera_offset() -> Vector {
    Vector { x: CAMERA_OFFSET_X as int, y: CAMERA_OFFSET_Y as int, z: CAMERA_OFFSET_Z as int }
}

/// The view at the start of a run: behind and above the car's start
/// position, looking at it.
pub fn start_view() -> (look: LookTransform)
    ensures
        look.eye@ == start_position().plus(camera_offset()),
        look.target@ == start_position(),
{
    LookTransform {
        eye: Vec3 {
            x: CAR_START_X + CAMERA_OFFSET_X,
            y: CAR_START_Y + CAMERA_OFFSET_Y,
            z: CAR_START_Z + CAMERA_OFFSET_Z,
        },
        target: car_start_position(),
    }
}

/// Whether any of the four orbit keys is held.
pub fn orbit_requested(w: bool, s: bool, a: bool, d: bool) -> (orbit: bool)
    ensures
        orbit == (w || s || a || d),
{
    w || s || a || d
}

/// The distance after one step of closing in from `current`.
pub open spec fn closer(current: int) -> int {
    saturate(
        fixed_mul(current, KEPT_SHARE as int) + fixed_mul(
            TARGET_DISTANCE as int,
            TARGET_SHARE as int,
        ),
    )
}

/// The eye after one step of following the car.
///
/// A camera that is orbiting or has not been activated stays. So does one
/// that is no farther than `FAR_DISTANCE`. A farther one moves along
/// `direction`, the unit vector from the target to the eye, to the
/// distance `closer(current_distance)`.
pub open spec fn followed(
    look: LookTransform,
    direction: Vector,
    current_distance: int,
    orbit: bool,
    is_activated: bool,
) -> Vector {
    if !orbit && is_activated && current_distance > FAR_DISTANCE {
        look.target@.plus(direction.scaled(closer(current_distance)).saturated()).saturated()
    } else {
        look.eye@
    }
}

pub fn follow(
    look_transform: &mut LookTransform,
    direction: Vec3,
    current_distance: i64,
    orbit: bool,
    is_activated: bool,
)
    ensures
        final(look_transform).target == old(look_transform).target,
        final(look_transform).eye@ == followed(
            *old(look_transform),
            direction@,
            current_distance as int,
            orbit,
            is_activated,
        ),
{
    if !orbit && is_activated {
        if current_distance > FAR_DISTANCE {
            let new_distance: i64 = narrow(
                wide_mul(current_distance, KEPT_SHARE) + wide_mul(TARGET_DISTANCE, TARGET_SHARE),
            );
            look_transform.eye = look_transform.target.plus(direction.scaled(new_distance));
        }
    }
}

/// `x` held within `SIDE_RANGE` of `center`.
pub open spec fn beside(x: i64, center: i64) -> int {
    let low = saturate(center - SIDE_RANGE);
    let high = saturate(center + SIDE_RANGE);
    if x < low {
        low
    } else if x > high {
        high
    } else {
        x as int
    }
}

/// The eye kept near the car.
///
/// At a distance from `NEAR_DISTANCE` to `FAR_DISTANCE` the eye is held
/// within `SIDE_RANGE` of the car along x and z. At any distance it is
/// held at least `MIN_HEIGHT` above the car.
pub open spec fn confined(eye: Vec3, car_translation: Vec3, current_distance: i64) -> Vector {
    let floor = saturate(car_translation.y + MIN_HEIGHT);
    let in_band = NEAR_DISTANCE <= current_distance <= FAR_DISTANCE;
    Vector {
        x: if in_band {
            beside(eye.x, car_translation.x)
        } else {
            eye.x as int
        },
        y: if eye.y < floor {
            floor
        } else {
            eye.y as int
        },
        z: if in_band {
            beside(eye.z, car_translation.z)
        } else {
            eye.z as int
        },
    }
}

fn hold_beside(x: i64, center: i64) -> (r: i64)
    ensures
        r == beside(x, center),
{
    let low: i64 = narrow(center as i128 - SIDE_RANGE as i128);
    let high: i64 = narrow(center as i128 + SIDE_RANGE as i128);
    if x < low {
        low
    } else if x > high {
        high
    } else {
        x
    }
}

pub fn confine(look_transform: &mut LookTransform, car_translation: Vec3, current_distance: i64)
    ensures
        final(look_transform).target == old(look_transform).target,
        final(look_transform).eye@ == confined(
            old(look_transform).eye,
            car_translation,
            current_distance,
        ),
{
    if current_distance >= NEAR_DISTANCE && current_distance <= FAR_DISTANCE {
        look_transform.eye.x = hold_beside(look_transform.eye.x, car_translation.x);
        look_transform.eye.z = hold_beside(look_transform.eye.z, car_translation.z);
    }
    let min_height: i64 = narrow(car_translation.y as i128 + MIN_HEIGHT as i128);
    if look_transform.eye.y < min_height {
        look_transform.eye.y = min_height;
    }
}

} // verus!
