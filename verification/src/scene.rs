//! What the scene is built from: the car's tuning and the triangles of the
//! terrain's collision mesh.

use vstd::prelude::*;
use crate::car::Car;
use crate::math::Vec3;

verus! {

/// The share of its thrust that the game's car has in the air.
pub const AIR_THRUST: i64 = 1;

/// The share of the vertical drag that acts on the spin of the game's car
/// about the vertical axis.
pub const YAW_DRAG: i64 = 800_000;

/// The tuning of the car as the game puts it into the scene: next to no
/// thrust in the air, and a weaker drag on spin about the vertical axis.
pub fn car_tuning() -> (car: Car)
    ensures
        car == (Car {
            thrust: Vec3 { x: 5_000_000_000, y: 2_500_000_000, z: 2_500_000_000 },
            drag: Vec3 { x: 100_000_000, y: 2_000_000, z: 100_000_000 },
            air_thrust: AIR_THRUST,
            yaw_drag: YAW_DRAG,
        }),
{
    Car {
        thrust: Vec3 { x: 5_000_000_000, y: 2_500_000_000, z: 2_500_000_000 },
        drag: Vec3 { x: 100_000_000, y: 2_000_000, z: 100_000_000 },
        air_thrust: AIR_THRUST,
        yaw_drag: YAW_DRAG,
    }
}

/// Whether `triangles` holds the corners in `index_values`, three by three.
pub open spec fn grouped(index_values: Seq<int>, triangles: Seq<[u32; 3]>) -> bool {
    &&& index_values.len() == 3 * triangles.len()
    &&& forall|t: int|
        0 <= t < triangles.len() ==> {
            &&& (#[trigger] triangles[t])@[0] == index_values[3 * t]
            &&& triangles[t]@[1] == index_values[3 * t + 1]
            &&& triangles[t]@[2] == index_values[3 * t + 2]
        }
}

/// Groups a flat list of vertex indices into triangles.
pub fn triangles(index_values: &Vec<u32>) -> (indices: Vec<[u32; 3]>)
    requires
        index_values@.len() % 3 == 0,
    ensures
        grouped(index_values@.map_values(|i: u32| i as int), indices@),
{
    let n: usize = index_values.len() / 3;
    let mut indices: Vec<[u32; 3]> = Vec::new();
    let mut t: usize = 0;
    while t < n
        invariant
            index_values@.len() == 3 * n,
            3 * n <= usize::MAX,
            t <= n,
            indices@.len() == t,
            forall|k: int|
                0 <= k < t ==> {
                    &&& (#[trigger] indices@[k])@[0] == index_values@[3 * k]
                    &&& indices@[k]@[1] == index_values@[3 * k + 1]
                    &&& indices@[k]@[2] == index_values@[3 * k + 2]
                },
        decreases n - t,
    {
        let chunk: [u32; 3] = [
            index_values[3 * t],
            index_values[3 * t + 1],
            index_values[3 * t + 2],
        ];
        indices.push(chunk);
        t = t + 1;
    }
    indices
}

/// Groups a flat list of narrow vertex indices into triangles.
pub fn triangles_u16(index_values: &Vec<u16>) -> (indices: Vec<[u32; 3]>)
    requires
        index_values@.len() % 3 == 0,
    ensures
        grouped(index_values@.map_values(|i: u16| i as int), indices@),
{
    let n: usize = index_values.len() / 3;
    let mut indices: Vec<[u32; 3]> = Vec::new();
    let mut t: usize = 0;
    while t < n
        invariant
            index_values@.len() == 3 * n,
            3 * n <= usize::MAX,
            t <= n,
            indices@.len() == t,
            forall|k: int|
                0 <= k < t ==> {
                    &&& (#[trigger] indices@[k])@[0] == index_values@[3 * k]
                    &&& indices@[k]@[1] == index_values@[3 * k + 1]
                    &&& indices@[k]@[2] == index_values@[3 * k + 2]
                },
        decreases n - t,
    {
        let chunk: [u32; 3] = [
            index_values[3 * t] as u32,
            index_values[3 * t + 1] as u32,
            index_values[3 * t + 2] as u32,
        ];
        indices.push(chunk);
        t = t + 1;
    }
    indices
}

} // verus!
