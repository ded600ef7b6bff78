//! Three-dimensional vectors, quaternions and linear frames over
//! fixed-point scalars.
//!
//! The model of a [`Vec3`] is a [`Vector`] of unbounded integers. Each
//! executable operation returns the exact result of the model, narrowed to
//! the scalar range.

use vstd::prelude::*;
use crate::fixed::{fixed_mul, narrow, saturate, wide_mul, SCALE};

verus! {

/// A vector of unbounded fixed-point numbers.
pub ghost struct Vector {
    pub x: int,
    pub y: int,
    pub z: int,
}

impl Vector {
    pub open spec fn zero() -> Vector {
        Vector { x: 0, y: 0, z: 0 }
    }

    /// The world's up direction.
    pub open spec fn unit_y() -> Vector {
        Vector { x: 0, y: SCALE as int, z: 0 }
    }

    pub open spec fn plus(self, rhs: Vector) -> Vector {
        Vector { x: self.x + rhs.x, y: self.y + rhs.y, z: self.z + rhs.z }
    }

    pub open spec fn minus(self, rhs: Vector) -> Vector {
        Vector { x: self.x - rhs.x, y: self.y - rhs.y, z: self.z - rhs.z }
    }

    pub open spec fn neg(self) -> Vector {
        Vector { x: -self.x, y: -self.y, z: -self.z }
    }

    /// The component-wise fixed-point product.
    pub open spec fn times(self, rhs: Vector) -> Vector {
        Vector {
            x: fixed_mul(self.x, rhs.x),
            y: fixed_mul(self.y, rhs.y),
            z: fixed_mul(self.z, rhs.z),
        }
    }

    /// Every component multiplied by the fixed-point number `k`.
    pub open spec fn scaled(self, k: int) -> Vector {
        Vector { x: fixed_mul(self.x, k), y: fixed_mul(self.y, k), z: fixed_mul(self.z, k) }
    }

    /// The fixed-point dot product.
    pub open spec fn dot(self, rhs: Vector) -> int {
        fixed_mul(self.x, rhs.x) + fixed_mul(self.y, rhs.y) + fixed_mul(self.z, rhs.z)
    }

    /// The squared length, in units of `1 / (SCALE * SCALE)`: no rounding.
    pub open spec fn norm_squared(self) -> int {
        self.x * self.x + self.y * self.y + self.z * self.z
    }

    /// Each component narrowed to the scalar range.
    pub open spec fn saturated(self) -> Vector {
        Vector { x: saturate(self.x), y: saturate(self.y), z: saturate(self.z) }
    }
}

/// A vector of fixed-point scalars.
#[derive(Clone, Copy, Debug, PartialEq, Eq, Structural)]
pub struct Vec3 {
    pub x: i64,
    pub y: i64,
    pub z: i64,
}

impl View for Vec3 {
    type V = Vector;

    open spec fn view(&self) -> Vector {
        Vector { x: self.x as int, y: self.y as int, z: self.z as int }
    }
}

impl Vec3 {
    pub fn new(x: i64, y: i64, z: i64) -> (v: Vec3)
        ensures
            v == (Vec3 { x, y, z }),
    {
        Vec3 { x, y, z }
    }

    pub fn zero() -> (v: Vec3)
        ensures
            v@ == Vector::zero(),
    {
        Vec3 { x: 0, y: 0, z: 0 }
    }

    /// The world's up direction.
    pub fn unit_y() -> (v: Vec3)
        ensures
            v@ == Vector::unit_y(),
    {
        Vec3 { x: 0, y: SCALE, z: 0 }
    }

    pub fn plus(self, rhs: Vec3) -> (v: Vec3)
        ensures
            v@ == self@.plus(rhs@).saturated(),
    {
        Vec3 {
            x: narrow(self.x as i128 + rhs.x as i128),
            y: narrow(self.y as i128 + rhs.y as i128),
            z: narrow(self.z as i128 + rhs.z as i128),
        }
    }

    pub fn minus(self, rhs: Vec3) -> (v: Vec3)
        ensures
            v@ == self@.minus(rhs@).saturated(),
    {
        Vec3 {
            x: narrow(self.x as i128 - rhs.x as i128),
            y: narrow(self.y as i128 - rhs.y as i128),
            z: narrow(self.z as i128 - rhs.z as i128),
        }
    }

    pub fn neg(self) -> (v: Vec3)
        ensures
            v@ == self@.neg().saturated(),
    {
        Vec3 {
            x: narrow(-(self.x as i128)),
            y: narrow(-(self.y as i128)),
            z: narrow(-(self.z as i128)),
        }
    }

    /// The component-wise product.
    pub fn times(self, rhs: Vec3) -> (v: Vec3)
        ensures
            v@ == self@.times(rhs@).saturated(),
    {
        Vec3 {
            x: narrow(wide_mul(self.x, rhs.x)),
            y: narrow(wide_mul(self.y, rhs.y)),
            z: narrow(wide_mul(self.z, rhs.z)),
        }
    }

    pub fn scaled(self, k: i64) -> (v: Vec3)
        ensures
            v@ == self@.scaled(k as int).saturated(),
    {
        Vec3 {
            x: narrow(wide_mul(self.x, k)),
            y: narrow(wide_mul(self.y, k)),
            z: narrow(wide_mul(self.z, k)),
        }
    }

    pub fn dot(self, rhs: Vec3) -> (d: i64)
        ensures
            d == saturate(self@.dot(rhs@)),
    {
        narrow(wide_mul(self.x, rhs.x) + wide_mul(self.y, rhs.y) + wide_mul(self.z, rhs.z))
    }

    /// Whether the vector is strictly shorter than `limit`.
    pub fn shorter_than(self, limit: i64) -> (b: bool)
        ensures
            b == (limit > 0 && self@.norm_squared() < limit * limit),
    {
        if limit <= 0 {
            assert(self@.norm_squared() >= 0) by (nonlinear_arith);
            assert(limit * limit >= 0) by (nonlinear_arith);
            return false;
        }
        let xx: u128 = square(self.x);
        let yy: u128 = square(self.y);
        let zz: u128 = square(self.z);
        let ll: u128 = square(limit);
        xx < ll && yy < ll - xx && zz < ll - xx - yy
    }
}

/// The exact square of a scalar.
pub fn square(a: i64) -> (r: u128)
    ensures
        r == a * a,
        r <= 0x4000_0000_0000_0000_0000_0000_0000_0000,
{
    let m: u128 = if a >= 0 {
        a as u128
    } else {
        (-(a as i128)) as u128
    };
    assert(m * m == a * a && m * m <= 0x4000_0000_0000_0000_0000_0000_0000_0000)
        by (nonlinear_arith)
        requires
            m == a || m == -a,
            m <= 0x8000_0000_0000_0000,
    ;
    m * m
}

/// A linear map between coordinate frames, held as the images of the three
/// basis vectors.
#[derive(Clone, Copy, Debug, PartialEq, Eq, Structural)]
pub struct Mat3 {
    pub x_axis: Vec3,
    pub y_axis: Vec3,
    pub z_axis: Vec3,
}

impl Mat3 {
    /// The exact image of `v`: the axes weighted by the components of `v`.
    pub open spec fn apply(self, v: Vector) -> Vector {
        self.x_axis@.scaled(v.x).plus(self.y_axis@.scaled(v.y)).plus(self.z_axis@.scaled(v.z))
    }

    pub fn identity() -> (m: Mat3)
        ensures
            m.x_axis@ == (Vector { x: SCALE as int, y: 0, z: 0 }),
            m.y_axis@ == Vector::unit_y(),
            m.z_axis@ == (Vector { x: 0, y: 0, z: SCALE as int }),
    {
        Mat3 {
            x_axis: Vec3 { x: SCALE, y: 0, z: 0 },
            y_axis: Vec3 { x: 0, y: SCALE, z: 0 },
            z_axis: Vec3 { x: 0, y: 0, z: SCALE },
        }
    }

    /// Maps a direction from the source frame into the target frame.
    pub fn transform_vector3(&self, v: Vec3) -> (r: Vec3)
        ensures
            r@ == self.apply(v@).saturated(),
    {
        Vec3 {
            x: narrow(
                wide_mul(self.x_axis.x, v.x) + wide_mul(self.y_axis.x, v.y) + wide_mul(
                    self.z_axis.x,
                    v.z,
                ),
            ),
            y: narrow(
                wide_mul(self.x_axis.y, v.x) + wide_mul(self.y_axis.y, v.y) + wide_mul(
                    self.z_axis.y,
                    v.z,
                ),
            ),
            z: narrow(
                wide_mul(self.x_axis.z, v.x) + wide_mul(self.y_axis.z, v.y) + wide_mul(
                    self.z_axis.z,
                    v.z,
                ),
            ),
        }
    }
}

/// A rotation, held as the four components of a quaternion.
#[derive(Clone, Copy, Debug, PartialEq, Eq, Structural)]
pub struct Quat {
    pub x: i64,
    pub y: i64,
    pub z: i64,
    pub w: i64,
}

impl Quat {
    /// The rotation that turns nothing.
    pub open spec fn spec_identity() -> Quat {
        Quat { x: 0, y: 0, z: 0, w: SCALE }
    }

    pub fn identity() -> (q: Quat)
        ensures
            q == Quat::spec_identity(),
    {
        Quat { x: 0, y: 0, z: 0, w: SCALE }
    }
}

} // verus!
