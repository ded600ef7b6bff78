//! The car's commands and its force resolver.
//!
//! The car pushes only along its length. Its resolver is the buggy's, with
//! two choices left to the tuning of the car: the share of the thrust that
//! acts in the air, and the share of the vertical drag that acts on spin
//! about the vertical axis. With both shares at one it is the buggy's
//! resolver exactly.

use vstd::prelude::*;
use crate::buggy::{
    bites, coasted, drag_term, gentle, lemma_coasting_step_slows,
    lemma_pure_drag_strictly_opposes, opposes, pure_drag, Buggy, Movement,
};
use crate::car::Car;
use crate::fixed::{
    fixed_mul, lemma_fixed_mul_one, lemma_fixed_mul_sign, lemma_fixed_mul_zero, narrow, saturate,
    wide_mul, SCALE,
};
use crate::math::{Mat3, Vec3, Vector};
use crate::physics::{ExternalForce, Velocity};

verus! {

/// One directional intent with its magnitude.
#[derive(Clone, Copy, Debug, PartialEq, Eq, Structural)]
pub enum CarMovement {
    PushForward(i64),
    PushBackward(i64),
    TurnLeft(i64),
    TurnRight(i64),
}

impl CarMovement {
    /// The magnitude carried by the command.
    pub open spec fn magnitude(self) -> int {
        match self {
            CarMovement::PushForward(p) => p as int,
            CarMovement::PushBackward(p) => p as int,
            CarMovement::TurnLeft(p) => p as int,
            CarMovement::TurnRight(p) => p as int,
        }
    }

    /// The same command, given to a buggy.
    pub open spec fn as_movement(self) -> Movement {
        match self {
            CarMovement::PushForward(p) => Movement::PushForward(p),
            CarMovement::PushBackward(p) => Movement::PushBackward(p),
            CarMovement::TurnLeft(p) => Movement::TurnLeft(p),
            CarMovement::TurnRight(p) => Movement::TurnRight(p),
        }
    }

    /// The body-local push of the command: forward is +x.
    pub open spec fn lin(self) -> Vector {
        match self {
            CarMovement::PushForward(p) => Vector { x: p as int, y: 0, z: 0 },
            CarMovement::PushBackward(p) => Vector { x: saturate(-p), y: 0, z: 0 },
            _ => Vector::zero(),
        }
    }

    /// The body-local turn of the command: left is +y.
    pub open spec fn ang(self) -> Vector {
        match self {
            CarMovement::TurnLeft(p) => Vector { x: 0, y: p as int, z: 0 },
            CarMovement::TurnRight(p) => Vector { x: 0, y: saturate(-p), z: 0 },
            _ => Vector::zero(),
        }
    }

    pub fn as_lin_vec(&self) -> (v: Vec3)
        ensures
            v@ == self.lin(),
    {
        match self {
            CarMovement::PushForward(p) => Vec3 { x: *p, y: 0, z: 0 },
            CarMovement::PushBackward(p) => Vec3 { x: narrow(-(*p as i128)), y: 0, z: 0 },
            _ => Vec3 { x: 0, y: 0, z: 0 },
        }
    }

    pub fn as_ang_vec(&self) -> (v: Vec3)
        ensures
            v@ == self.ang(),
    {
        match self {
            CarMovement::TurnLeft(p) => Vec3 { x: 0, y: *p, z: 0 },
            CarMovement::TurnRight(p) => Vec3 { x: 0, y: narrow(-(*p as i128)), z: 0 },
            _ => Vec3 { x: 0, y: 0, z: 0 },
        }
    }
}

/// The commands collected for the current tick, oldest first.
#[derive(Debug)]
pub struct CarMovements(pub Vec<CarMovement>);

impl View for CarMovements {
    type V = Seq<CarMovement>;

    open spec fn view(&self) -> Seq<CarMovement> {
        self.0@
    }
}

impl CarMovements {
    pub fn new() -> (q: CarMovements)
        ensures
            q@ == Seq::<CarMovement>::empty(),
    {
        CarMovements(Vec::new())
    }

    /// Appends one command.
    pub fn push(&mut self, command: CarMovement)
        ensures
            final(self)@ == old(self)@.push(command),
    {
        self.0.push(command);
    }

    /// Hands out every queued command in order and leaves the queue empty.
    pub fn drain(&mut self) -> (commands: Vec<CarMovement>)
        ensures
            commands@ == old(self)@,
            final(self)@ == Seq::<CarMovement>::empty(),
    {
        let mut commands: Vec<CarMovement> = Vec::new();
        std::mem::swap(&mut self.0, &mut commands);
        commands
    }

    pub fn len(&self) -> (n: usize)
        ensures
            n == self@.len(),
    {
        self.0.len()
    }
}

/// The share of the thrust that acts: all of it on the ground, the car's
/// air share off it.
pub open spec fn thrust_share(car: Car, grounded: bool) -> int {
    if grounded {
        SCALE as int
    } else {
        car.air_thrust as int
    }
}

/// The body-local force that one command asks for.
pub open spec fn push_of(command: CarMovement, thrust: Vector, share: int) -> Vector {
    command.lin().times(thrust).saturated().scaled(share).saturated()
}

/// The body-local torque that one command asks for.
pub open spec fn turn_of(command: CarMovement, thrust: Vector, share: int) -> Vector {
    command.ang().times(thrust).saturated().scaled(share).saturated()
}

/// The exact sum of the forces that the commands ask for.
pub open spec fn total_push(commands: Seq<CarMovement>, thrust: Vector, share: int) -> Vector
    decreases commands.len(),
{
    if commands.len() == 0 {
        Vector::zero()
    } else {
        total_push(commands.drop_last(), thrust, share).plus(
            push_of(commands.last(), thrust, share),
        )
    }
}

/// The exact sum of the torques that the commands ask for.
pub open spec fn total_turn(commands: Seq<CarMovement>, thrust: Vector, share: int) -> Vector
    decreases commands.len(),
{
    if commands.len() == 0 {
        Vector::zero()
    } else {
        total_turn(commands.drop_last(), thrust, share).plus(
            turn_of(commands.last(), thrust, share),
        )
    }
}

/// What drag takes away from the torque at the given angular velocity:
/// each component of the velocity times the drag of its axis, and about
/// the vertical axis the share `yaw_share` of that.
pub open spec fn angular_drag(angvel: Vector, drag: Vector, yaw_share: int) -> Vector {
    Vector {
        x: saturate(fixed_mul(angvel.x, drag.x)),
        y: saturate(fixed_mul(saturate(fixed_mul(angvel.y, drag.y)), yaw_share)),
        z: saturate(fixed_mul(angvel.z, drag.z)),
    }
}

/// A body-local sum carried into world space and reduced by `loss`.
pub open spec fn carried(local: Vector, frame: Mat3, loss: Vector) -> Vector {
    frame.apply(local.saturated()).saturated().minus(loss).saturated()
}

/// The world-space force for one tick.
pub open spec fn world_force(
    commands: Seq<CarMovement>,
    car: Car,
    frame: Mat3,
    linvel: Vector,
    grounded: bool,
) -> Vector {
    carried(
        total_push(commands, car.thrust@, thrust_share(car, grounded)),
        frame,
        drag_term(linvel, car.drag@),
    )
}

/// The world-space torque for one tick.
pub open spec fn world_torque(
    commands: Seq<CarMovement>,
    car: Car,
    frame: Mat3,
    angvel: Vector,
    grounded: bool,
) -> Vector {
    carried(
        total_turn(commands, car.thrust@, thrust_share(car, grounded)),
        frame,
        angular_drag(angvel, car.drag@, car.yaw_drag as int),
    )
}

/// The commands as a buggy would be given them.
pub open spec fn as_movements(commands: Seq<CarMovement>) -> Seq<Movement> {
    commands.map_values(|c: CarMovement| c.as_movement())
}

/// The buggy with the thrust and drag of the car.
pub open spec fn as_buggy(car: Car) -> Buggy {
    Buggy { thrust: car.thrust, drag: car.drag }
}

/// At a share of one, the commands of a car add up as those of a buggy.
pub proof fn lemma_full_share_totals(commands: Seq<CarMovement>, thrust: Vector)
    ensures
        total_push(commands, thrust, SCALE as int) == crate::buggy::total_push(
            as_movements(commands),
            thrust,
        ),
        total_turn(commands, thrust, SCALE as int) == crate::buggy::total_turn(
            as_movements(commands),
            thrust,
        ),
    decreases commands.len(),
{
    if commands.len() > 0 {
        let last = commands.last();
        lemma_full_share_totals(commands.drop_last(), thrust);
        assert(as_movements(commands).drop_last() =~= as_movements(commands.drop_last()));
        assert(as_movements(commands).last() == last.as_movement());
        let push = last.lin().times(thrust).saturated();
        let turn = last.ang().times(thrust).saturated();
        lemma_fixed_mul_one(push.x);
        lemma_fixed_mul_one(push.y);
        lemma_fixed_mul_one(push.z);
        lemma_fixed_mul_one(turn.x);
        lemma_fixed_mul_one(turn.y);
        lemma_fixed_mul_one(turn.z);
        assert(push_of(last, thrust, SCALE as int) == crate::buggy::push_of(
            last.as_movement(),
            thrust,
        ));
        assert(turn_of(last, thrust, SCALE as int) == crate::buggy::turn_of(
            last.as_movement(),
            thrust,
        ));
    }
}

/// A plain car, one with both shares at one, is resolved exactly as a
/// buggy with the same thrust and drag: each command scaled by the thrust
/// of its axis, the sum carried into world space, and the velocity times
/// the drag taken away on every axis. This holds on the ground and in the
/// air.
pub proof fn lemma_plain_car_is_a_buggy(
    commands: Seq<CarMovement>,
    car: Car,
    frame: Mat3,
    velocity: Velocity,
    grounded: bool,
)
    requires
        car.plain(),
    ensures
        world_force(commands, car, frame, velocity.linvel@, grounded) == crate::buggy::world_force(
            as_movements(commands),
            as_buggy(car),
            frame,
            velocity.linvel@,
        ),
        world_torque(commands, car, frame, velocity.angvel@, grounded)
            == crate::buggy::world_torque(
            as_movements(commands),
            as_buggy(car),
            frame,
            velocity.angvel@,
        ),
        angular_drag(velocity.angvel@, car.drag@, car.yaw_drag as int) == drag_term(
            velocity.angvel@,
            car.drag@,
        ),
{
    lemma_full_share_totals(commands, car.thrust@);
    lemma_fixed_mul_one(saturate(fixed_mul(velocity.angvel@.y, car.drag@.y)));
}

/// Whether every command carries the magnitude zero.
pub open spec fn all_idle(commands: Seq<CarMovement>) -> bool {
    forall|i: int| 0 <= i < commands.len() ==> (#[trigger] commands[i]).magnitude() == 0
}

/// Commands of magnitude zero add up to nothing.
pub proof fn lemma_idle_totals(commands: Seq<CarMovement>, thrust: Vector, share: int)
    requires
        all_idle(commands),
    ensures
        total_push(commands, thrust, share) == Vector::zero(),
        total_turn(commands, thrust, share) == Vector::zero(),
    decreases commands.len(),
{
    if commands.len() > 0 {
        let last = commands.last();
        assert(last == commands[commands.len() - 1]);
        assert(last.magnitude() == 0);
        assert(all_idle(commands.drop_last())) by {
            assert forall|i: int| 0 <= i < commands.drop_last().len() implies (
            #[trigger] commands.drop_last()[i]).magnitude() == 0 by {
                assert(commands.drop_last()[i] == commands[i]);
            }
        }
        lemma_idle_totals(commands.drop_last(), thrust, share);
        lemma_fixed_mul_zero(thrust.x);
        lemma_fixed_mul_zero(thrust.y);
        lemma_fixed_mul_zero(thrust.z);
        lemma_fixed_mul_zero(share);
        assert(push_of(last, thrust, share) == Vector::zero());
        assert(turn_of(last, thrust, share) == Vector::zero());
    }
}

/// With nothing to carry into world space, only the loss is left, turned
/// around.
pub proof fn lemma_nothing_carried(frame: Mat3, loss: Vector)
    ensures
        carried(Vector::zero(), frame, loss) == loss.neg().saturated(),
{
    lemma_fixed_mul_zero(frame.x_axis@.x);
    lemma_fixed_mul_zero(frame.x_axis@.y);
    lemma_fixed_mul_zero(frame.x_axis@.z);
    lemma_fixed_mul_zero(frame.y_axis@.x);
    lemma_fixed_mul_zero(frame.y_axis@.y);
    lemma_fixed_mul_zero(frame.y_axis@.z);
    lemma_fixed_mul_zero(frame.z_axis@.x);
    lemma_fixed_mul_zero(frame.z_axis@.y);
    lemma_fixed_mul_zero(frame.z_axis@.z);
    assert(frame.apply(Vector::zero().saturated()) == Vector::zero());
}

/// When every command has magnitude zero, the force and the torque are the
/// drag alone, on the ground and in the air, whatever the orientation. For
/// a plain car the drag on the torque is the angular velocity times the
/// drag on all three axes.
pub proof fn lemma_idle_commands_leave_drag(
    commands: Seq<CarMovement>,
    car: Car,
    frame: Mat3,
    velocity: Velocity,
    grounded: bool,
)
    requires
        all_idle(commands),
    ensures
        world_force(commands, car, frame, velocity.linvel@, grounded) == pure_drag(
            velocity.linvel@,
            car.drag@,
        ),
        world_torque(commands, car, frame, velocity.angvel@, grounded) == angular_drag(
            velocity.angvel@,
            car.drag@,
            car.yaw_drag as int,
        ).neg().saturated(),
        car.plain() ==> world_torque(commands, car, frame, velocity.angvel@, grounded)
            == pure_drag(velocity.angvel@, car.drag@),
{
    lemma_idle_totals(commands, car.thrust@, thrust_share(car, grounded));
    lemma_nothing_carried(frame, drag_term(velocity.linvel@, car.drag@));
    lemma_nothing_carried(frame, angular_drag(velocity.angvel@, car.drag@, car.yaw_drag as int));
    if car.plain() {
        lemma_fixed_mul_one(saturate(fixed_mul(velocity.angvel@.y, car.drag@.y)));
    }
}

/// With an empty queue, drag that is not negative and a share of the
/// vertical drag that is not negative, the force opposes the linear
/// velocity and the torque opposes the angular velocity.
pub proof fn lemma_drag_alone_opposes_velocity(
    car: Car,
    frame: Mat3,
    velocity: Velocity,
    grounded: bool,
)
    requires
        car.drag.x >= 0,
        car.drag.y >= 0,
        car.drag.z >= 0,
        car.yaw_drag >= 0,
    ensures
        opposes(
            world_force(Seq::<CarMovement>::empty(), car, frame, velocity.linvel@, grounded),
            velocity.linvel@,
        ),
        world_force(Seq::<CarMovement>::empty(), car, frame, velocity.linvel@, grounded)
            == pure_drag(velocity.linvel@, car.drag@),
        opposes(
            world_torque(Seq::<CarMovement>::empty(), car, frame, velocity.angvel@, grounded),
            velocity.angvel@,
        ),
{
    lemma_idle_commands_leave_drag(Seq::<CarMovement>::empty(), car, frame, velocity, grounded);
    let v = velocity.linvel@;
    let w = velocity.angvel@;
    let d = car.drag@;
    lemma_fixed_mul_sign(v.x, d.x);
    lemma_fixed_mul_sign(v.y, d.y);
    lemma_fixed_mul_sign(v.z, d.z);
    lemma_fixed_mul_sign(w.x, d.x);
    lemma_fixed_mul_sign(w.y, d.y);
    lemma_fixed_mul_sign(w.z, d.z);
    lemma_fixed_mul_sign(saturate(fixed_mul(w.y, d.y)), car.yaw_drag as int);
    lemma_fixed_mul_zero(d.x);
    lemma_fixed_mul_zero(d.y);
    lemma_fixed_mul_zero(d.z);
    lemma_fixed_mul_zero(car.yaw_drag as int);
}

/// With an empty queue, drag that is not negative and a velocity on which
/// the drag bites on at least one axis, the force is strictly against the
/// linear velocity, on the ground and in the air.
pub proof fn lemma_drag_alone_strictly_opposes(
    car: Car,
    frame: Mat3,
    velocity: Velocity,
    grounded: bool,
)
    requires
        car.drag.x >= 0,
        car.drag.y >= 0,
        car.drag.z >= 0,
        bites(velocity.linvel.x as int, car.drag.x as int) || bites(
            velocity.linvel.y as int,
            car.drag.y as int,
        ) || bites(velocity.linvel.z as int, car.drag.z as int),
    ensures
        ({
            let f = world_force(
                Seq::<CarMovement>::empty(),
                car,
                frame,
                velocity.linvel@,
                grounded,
            );
            f.x * velocity.linvel.x + f.y * velocity.linvel.y + f.z * velocity.linvel.z < 0
        }),
{
    lemma_idle_commands_leave_drag(Seq::<CarMovement>::empty(), car, frame, velocity, grounded);
    lemma_pure_drag_strictly_opposes(velocity.linvel@, car.drag@);
}

/// A car with an empty queue coasts, on the ground and in the air: the
/// force that the resolver gives is the drag alone, so one integration
/// step under it never makes the car faster, whatever its orientation and
/// its tuning.
pub proof fn lemma_car_coasts(
    car: Car,
    frame: Mat3,
    velocity: Velocity,
    grounded: bool,
    step: int,
)
    requires
        gentle(car.drag.x as int, step),
        gentle(car.drag.y as int, step),
        gentle(car.drag.z as int, step),
    ensures
        world_force(Seq::<CarMovement>::empty(), car, frame, velocity.linvel@, grounded)
            == pure_drag(velocity.linvel@, car.drag@),
        coasted(
            velocity.linvel@,
            world_force(Seq::<CarMovement>::empty(), car, frame, velocity.linvel@, grounded),
            step,
        ).norm_squared() <= velocity.linvel@.norm_squared(),
{
    lemma_idle_commands_leave_drag(Seq::<CarMovement>::empty(), car, frame, velocity, grounded);
    lemma_coasting_step_slows(velocity.linvel@, car.drag@, step);
}

/// Sums what the commands ask for, in body-local space.
fn accumulate(commands: &Vec<CarMovement>, thrust: Vec3, share: i64) -> (sums: (Vec3, Vec3))
    ensures
        sums.0@ == total_push(commands@, thrust@, share as int).saturated(),
        sums.1@ == total_turn(commands@, thrust@, share as int).saturated(),
{
    let n: usize = commands.len();
    let mut fx: i128 = 0;
    let mut fy: i128 = 0;
    let mut fz: i128 = 0;
    let mut tx: i128 = 0;
    let mut ty: i128 = 0;
    let mut tz: i128 = 0;
    let mut i: usize = 0;
    while i < n
        invariant
            n == commands@.len(),
            i <= n,
            total_push(commands@.take(i as int), thrust@, share as int) == (Vector {
                x: fx as int,
                y: fy as int,
                z: fz as int,
            }),
            total_turn(commands@.take(i as int), thrust@, share as int) == (Vector {
                x: tx as int,
                y: ty as int,
                z: tz as int,
            }),
            -(i * 0x8000_0000_0000_0000) <= fx <= i * 0x8000_0000_0000_0000,
            -(i * 0x8000_0000_0000_0000) <= fy <= i * 0x8000_0000_0000_0000,
            -(i * 0x8000_0000_0000_0000) <= fz <= i * 0x8000_0000_0000_0000,
            -(i * 0x8000_0000_0000_0000) <= tx <= i * 0x8000_0000_0000_0000,
            -(i * 0x8000_0000_0000_0000) <= ty <= i * 0x8000_0000_0000_0000,
            -(i * 0x8000_0000_0000_0000) <= tz <= i * 0x8000_0000_0000_0000,
        decreases n - i,
    {
        let push: Vec3 = commands[i].as_lin_vec().times(thrust).scaled(share);
        let turn: Vec3 = commands[i].as_ang_vec().times(thrust).scaled(share);
        proof {
            let next = commands@.take(i + 1);
            assert(next.drop_last() =~= commands@.take(i as int));
            assert(next.last() == commands@[i as int]);
        }
        fx = fx + push.x as i128;
        fy = fy + push.y as i128;
        fz = fz + push.z as i128;
        tx = tx + turn.x as i128;
        ty = ty + turn.y as i128;
        tz = tz + turn.z as i128;
        i = i + 1;
    }
    assert(commands@.take(n as int) =~= commands@);
    (
        Vec3 { x: narrow(fx), y: narrow(fy), z: narrow(fz) },
        Vec3 { x: narrow(tx), y: narrow(ty), z: narrow(tz) },
    )
}

/// Resolves the queued commands into the force and torque for this tick
/// and empties the queue.
///
/// Each command is scaled by the thrust of its axis and the results are
/// summed; the sums are carried into world space by `local_to_global`, the
/// orientation read this tick; drag proportional to the velocity is then
/// taken away. With no command queued the result is the drag alone.
///
/// `grounded` says whether the car touches anything this tick: in the air
/// the share `car.air_thrust` of the thrust acts. About the vertical axis
/// the share `car.yaw_drag` of the drag acts on the torque.
pub fn apply_movement(
    car_movements: &mut CarMovements,
    car: &Car,
    local_to_global: &Mat3,
    velocity: &Velocity,
    grounded: bool,
) -> (forces: ExternalForce)
    ensures
        forces.force@ == world_force(
            old(car_movements)@,
            *car,
            *local_to_global,
            velocity.linvel@,
            grounded,
        ),
        forces.torque@ == world_torque(
            old(car_movements)@,
            *car,
            *local_to_global,
            velocity.angvel@,
            grounded,
        ),
        final(car_movements)@ == Seq::<CarMovement>::empty(),
{
    let movement_multiplier: i64 = if grounded {
        SCALE
    } else {
        car.air_thrust
    };
    let commands: Vec<CarMovement> = car_movements.drain();
    let (local_force, local_torque) = accumulate(&commands, car.thrust, movement_multiplier);
    let force: Vec3 = local_to_global.transform_vector3(local_force).minus(
        velocity.linvel.times(car.drag),
    );
    let angvel: Vec3 = velocity.angvel;
    let spin_loss: Vec3 = Vec3 {
        x: narrow(wide_mul(angvel.x, car.drag.x)),
        y: narrow(wide_mul(narrow(wide_mul(angvel.y, car.drag.y)), car.yaw_drag)),
        z: narrow(wide_mul(angvel.z, car.drag.z)),
    };
    let torque: Vec3 = local_to_global.transform_vector3(local_torque).minus(spin_loss);
    ExternalForce { force, torque }
}

} // verus!
