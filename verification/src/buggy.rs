//! The buggy: six directional commands, the queue that collects them for
//! one tick, and the resolver that turns them into a world-space force and
//! torque with linear drag.

use vstd::prelude::*;
use crate::fixed::{
    fixed_mul, lemma_descale_sign, lemma_fixed_mul_bound, lemma_fixed_mul_sign,
    lemma_fixed_mul_zero, lemma_saturate_shrinks, magnitude, narrow, saturate, SCALE,
};
use crate::math::{Mat3, Quat, Vec3, Vector};
use crate::physics::{ExternalForce, Transform, Velocity};

verus! {

/// Per-axis thrust and drag of the vehicle.
#[derive(Clone, Copy, Debug, PartialEq, Eq, Structural)]
pub struct Buggy {
    pub thrust: Vec3,
    pub drag: Vec3,
}

/// One directional intent with its magnitude.
#[derive(Clone, Copy, Debug, PartialEq, Eq, Structural)]
pub enum Movement {
    PushForward(i64),
    PushBackward(i64),
    PushLeft(i64),
    PushRight(i64),
    TurnLeft(i64),
    TurnRight(i64),
}

impl Movement {
    /// The magnitude carried by the command.
    pub open spec fn magnitude(self) -> int {
        match self {
            Movement::PushForward(p) => p as int,
            Movement::PushBackward(p) => p as int,
            Movement::PushLeft(p) => p as int,
            Movement::PushRight(p) => p as int,
            Movement::TurnLeft(p) => p as int,
            Movement::TurnRight(p) => p as int,
        }
    }

    /// The body-local push of the command: forward is +x, right is +z.
    pub open spec fn lin(self) -> Vector {
        match self {
            Movement::PushForward(p) => Vector { x: p as int, y: 0, z: 0 },
            Movement::PushBackward(p) => Vector { x: saturate(-p), y: 0, z: 0 },
            Movement::PushLeft(p) => Vector { x: 0, y: 0, z: saturate(-p) },
            Movement::PushRight(p) => Vector { x: 0, y: 0, z: p as int },
            _ => Vector::zero(),
        }
    }

    /// The body-local turn of the command: left is +y.
    pub open spec fn ang(self) -> Vector {
        match self {
            Movement::TurnLeft(p) => Vector { x: 0, y: p as int, z: 0 },
            Movement::TurnRight(p) => Vector { x: 0, y: saturate(-p), z: 0 },
            _ => Vector::zero(),
        }
    }

    pub fn as_lin_vec(&self) -> (v: Vec3)
        ensures
            v@ == self.lin(),
    {
        match self {
            Movement::PushForward(p) => Vec3 { x: *p, y: 0, z: 0 },
            Movement::PushBackward(p) => Vec3 { x: narrow(-(*p as i128)), y: 0, z: 0 },
            Movement::PushLeft(p) => Vec3 { x: 0, y: 0, z: narrow(-(*p as i128)) },
            Movement::PushRight(p) => Vec3 { x: 0, y: 0, z: *p },
            _ => Vec3 { x: 0, y: 0, z: 0 },
        }
    }

    pub fn as_ang_vec(&self) -> (v: Vec3)
        ensures
            v@ == self.ang(),
    {
        match self {
            Movement::TurnLeft(p) => Vec3 { x: 0, y: *p, z: 0 },
            Movement::TurnRight(p) => Vec3 { x: 0, y: narrow(-(*p as i128)), z: 0 },
            _ => Vec3 { x: 0, y: 0, z: 0 },
        }
    }
}

/// The commands collected for the current tick, oldest first.
#[derive(Debug)]
pub struct Movements(pub Vec<Movement>);

impl View for Movements {
    type V = Seq<Movement>;

    open spec fn view(&self) -> Seq<Movement> {
        self.0@
    }
}

impl Movements {
    pub fn new() -> (q: Movements)
        ensures
            q@ == Seq::<Movement>::empty(),
    {
        Movements(Vec::new())
    }

    /// Appends one command.
    pub fn push(&mut self, command: Movement)
        ensures
            final(self)@ == old(self)@.push(command),
    {
        self.0.push(command);
    }

    /// Hands out every queued command in order and leaves the queue empty.
    pub fn drain(&mut self) -> (commands: Vec<Movement>)
        ensures
            commands@ == old(self)@,
            final(self)@ == Seq::<Movement>::empty(),
    {
        let mut commands: Vec<Movement> = Vec::new();
        std::mem::swap(&mut self.0, &mut commands);
        commands
    }

    pub fn len(&self) -> (n: usize)
        ensures
            n == self@.len(),
    {
        self.0.len()
    }

    pub fn is_empty(&self) -> (b: bool)
        ensures
            b == (self@.len() == 0),
    {
        self.0.len() == 0
    }
}

/// The magnitude of a push while the boost key is held.
pub const BOOSTED_PUSH_FACTOR: i64 = 30_000_000;

/// The magnitude of a push without boost.
pub const PUSH_FACTOR: i64 = 21_000_000;

/// The magnitude of a turn.
pub const TURN_FACTOR: i64 = 20_000_000;

/// The height at which the reset key puts the buggy.
pub const RESET_HEIGHT: i64 = 10_000_000;

/// The largest magnitude that `stop_roll` leaves in the x and z components
/// of the rotation: fifteen degrees, in radians.
pub const ROLL_LIMIT: i64 = 261_799;

/// How far from the origin the buggy may be along x or z before
/// `_wrap_movement` puts it back.
pub const TERRAIN_LIMIT: i64 = 50_000_000;

/// The height at which `_wrap_movement` puts the buggy back.
pub const WRAP_HEIGHT: i64 = 20_000_000;

/// How far behind and above the buggy `_camera_follow` holds the camera.
pub const FOLLOW_DISTANCE: i64 = 10_000_000;

/// Which of the keys that drive the buggy are held down this tick.
#[derive(Clone, Copy, Debug, PartialEq, Eq, Structural)]
pub struct Keys {
    pub space: bool,
    pub w: bool,
    pub s: bool,
    pub a: bool,
    pub d: bool,
    pub up: bool,
    pub down: bool,
    pub left: bool,
    pub right: bool,
    pub key1: bool,
}

/// `commands` with `command` appended if `held`.
pub open spec fn push_if(commands: Seq<Movement>, held: bool, command: Movement) -> Seq<Movement> {
    if held {
        commands.push(command)
    } else {
        commands
    }
}

/// The magnitude of a push under these keys.
pub open spec fn push_factor(keys: Keys) -> i64 {
    if keys.space {
        BOOSTED_PUSH_FACTOR
    } else {
        PUSH_FACTOR
    }
}

/// `commands` followed by what the held keys ask for: forward, backward,
/// left, right, turn left, turn right, in this order.
pub open spec fn with_keys(commands: Seq<Movement>, keys: Keys) -> Seq<Movement> {
    let p = push_factor(keys);
    let c1 = push_if(commands, keys.w || keys.up, Movement::PushForward(p));
    let c2 = push_if(c1, keys.s || keys.down, Movement::PushBackward(p));
    let c3 = push_if(c2, keys.a, Movement::PushLeft(p));
    let c4 = push_if(c3, keys.d, Movement::PushRight(p));
    let c5 = push_if(c4, keys.left, Movement::TurnLeft(TURN_FACTOR));
    push_if(c5, keys.right, Movement::TurnRight(TURN_FACTOR))
}

/// Queues the commands that the held keys ask for.
///
/// The reset key then discards everything queued, turns the buggy
/// upright and lifts it to `RESET_HEIGHT`.
pub fn get_movement(movements: &mut Movements, transform: &mut Transform, keys: &Keys)
    ensures
        final(movements)@ == if keys.key1 {
            Seq::<Movement>::empty()
        } else {
            with_keys(old(movements)@, *keys)
        },
        *final(transform) == if keys.key1 {
            Transform {
                translation: Vec3 {
                    x: old(transform).translation.x,
                    y: RESET_HEIGHT,
                    z: old(transform).translation.z,
                },
                rotation: Quat::spec_identity(),
            }
        } else {
            *old(transform)
        },
{
    let push_factor: i64 = if keys.space {
        BOOSTED_PUSH_FACTOR
    } else {
        PUSH_FACTOR
    };
    if keys.w || keys.up {
        movements.push(Movement::PushForward(push_factor));
    }
    if keys.s || keys.down {
        movements.push(Movement::PushBackward(push_factor));
    }
    if keys.a {
        movements.push(Movement::PushLeft(push_factor));
    }
    if keys.d {
        movements.push(Movement::PushRight(push_factor));
    }
    if keys.left {
        movements.push(Movement::TurnLeft(TURN_FACTOR));
    }
    if keys.right {
        movements.push(Movement::TurnRight(TURN_FACTOR));
    }
    if keys.key1 {
        let _ = movements.drain();
        transform.rotation = Quat::identity();
        transform.translation.y = RESET_HEIGHT;
    }
}

/// `x` held within `ROLL_LIMIT` of zero.
pub open spec fn roll_clamped(x: i64) -> i64 {
    if x < -ROLL_LIMIT {
        (-ROLL_LIMIT) as i64
    } else if x > ROLL_LIMIT {
        ROLL_LIMIT
    } else {
        x
    }
}

/// Keeps the buggy from rolling over: holds the x and z components of its
/// rotation within `ROLL_LIMIT` of zero.
pub fn stop_roll(transform: &mut Transform)
    ensures
        final(transform).translation == old(transform).translation,
        final(transform).rotation == (Quat {
            x: roll_clamped(old(transform).rotation.x),
            y: old(transform).rotation.y,
            z: roll_clamped(old(transform).rotation.z),
            w: old(transform).rotation.w,
        }),
{
    let max: i64 = ROLL_LIMIT;
    let min: i64 = -ROLL_LIMIT;
    let x: i64 = transform.rotation.x;
    let z: i64 = transform.rotation.z;
    transform.rotation.x = if x < min {
        min
    } else if x > max {
        max
    } else {
        x
    };
    transform.rotation.z = if z < min {
        min
    } else if z > max {
        max
    } else {
        z
    };
}

/// Whether the position is off the terrain along x or z.
pub open spec fn off_terrain(translation: Vec3) -> bool {
    ||| translation.x > TERRAIN_LIMIT
    ||| translation.z > TERRAIN_LIMIT
    ||| translation.x < -TERRAIN_LIMIT
    ||| translation.z < -TERRAIN_LIMIT
}

/// Puts a buggy that has left the terrain back above its middle.
pub fn _wrap_movement(transform: &mut Transform)
    ensures
        final(transform).rotation == old(transform).rotation,
        final(transform).translation == if off_terrain(old(transform).translation) {
            Vec3 { x: 0, y: WRAP_HEIGHT, z: 0 }
        } else {
            old(transform).translation
        },
{
    let current_x: i64 = transform.translation.x;
    let current_z: i64 = transform.translation.z;
    if current_x > TERRAIN_LIMIT || current_z > TERRAIN_LIMIT || current_x < -TERRAIN_LIMIT
        || current_z < -TERRAIN_LIMIT {
        transform.translation = Vec3::new(0, WRAP_HEIGHT, 0);
    }
}

/// Holds the camera `FOLLOW_DISTANCE` behind and above the buggy, at the
/// buggy's side position.
pub fn _camera_follow(buggy_transform: &Transform, camera_transform: &mut Transform)
    ensures
        final(camera_transform).rotation == old(camera_transform).rotation,
        final(camera_transform).translation.x == saturate(
            buggy_transform.translation.x - FOLLOW_DISTANCE,
        ),
        final(camera_transform).translation.y == saturate(
            buggy_transform.translation.y + FOLLOW_DISTANCE,
        ),
        final(camera_transform).translation.z == buggy_transform.translation.z,
{
    camera_transform.translation.x = narrow(
        buggy_transform.translation.x as i128 - FOLLOW_DISTANCE as i128,
    );
    camera_transform.translation.y = narrow(
        buggy_transform.translation.y as i128 + FOLLOW_DISTANCE as i128,
    );
    camera_transform.translation.z = buggy_transform.translation.z;
}

/// The body-local force that one command asks for.
pub open spec fn push_of(command: Movement, thrust: Vector) -> Vector {
    command.lin().times(thrust).saturated()
}

/// The body-local torque that one command asks for.
pub open spec fn turn_of(command: Movement, thrust: Vector) -> Vector {
    command.ang().times(thrust).saturated()
}

/// The exact sum of the forces that the commands ask for.
pub open spec fn total_push(commands: Seq<Movement>, thrust: Vector) -> Vector
    decreases commands.len(),
{
    if commands.len() == 0 {
        Vector::zero()
    } else {
        total_push(commands.drop_last(), thrust).plus(push_of(commands.last(), thrust))
    }
}

/// The exact sum of the torques that the commands ask for.
pub open spec fn total_turn(commands: Seq<Movement>, thrust: Vector) -> Vector
    decreases commands.len(),
{
    if commands.len() == 0 {
        Vector::zero()
    } else {
        total_turn(commands.drop_last(), thrust).plus(turn_of(commands.last(), thrust))
    }
}

/// What drag takes away at the given velocity: each component of the
/// velocity times the drag of its axis.
pub open spec fn drag_term(velocity: Vector, drag: Vector) -> Vector {
    velocity.times(drag).saturated()
}

/// A body-local vector carried into world space and reduced by drag.
pub open spec fn world_result(local: Vector, frame: Mat3, velocity: Vector, drag: Vector) -> Vector {
    frame.apply(local.saturated()).saturated().minus(drag_term(velocity, drag)).saturated()
}

/// The world-space force for one tick.
pub open spec fn world_force(
    commands: Seq<Movement>,
    buggy: Buggy,
    frame: Mat3,
    linvel: Vector,
) -> Vector {
    world_result(total_push(commands, buggy.thrust@), frame, linvel, buggy.drag@)
}

/// The world-space torque for one tick.
pub open spec fn world_torque(
    commands: Seq<Movement>,
    buggy: Buggy,
    frame: Mat3,
    angvel: Vector,
) -> Vector {
    world_result(total_turn(commands, buggy.thrust@), frame, angvel, buggy.drag@)
}

/// What is left when nothing pushes: the drag alone, turned against the
/// velocity.
pub open spec fn pure_drag(velocity: Vector, drag: Vector) -> Vector {
    drag_term(velocity, drag).neg().saturated()
}

/// Whether no component of `a` has the sign of the same component of `b`.
pub open spec fn opposes(a: Vector, b: Vector) -> bool {
    &&& b.x > 0 ==> a.x <= 0
    &&& b.x < 0 ==> a.x >= 0
    &&& b.x == 0 ==> a.x == 0
    &&& b.y > 0 ==> a.y <= 0
    &&& b.y < 0 ==> a.y >= 0
    &&& b.y == 0 ==> a.y == 0
    &&& b.z > 0 ==> a.z <= 0
    &&& b.z < 0 ==> a.z >= 0
    &&& b.z == 0 ==> a.z == 0
}

/// Whether every command carries the magnitude zero.
pub open spec fn all_idle(commands: Seq<Movement>) -> bool {
    forall|i: int| 0 <= i < commands.len() ==> (#[trigger] commands[i]).magnitude() == 0
}

/// Commands of magnitude zero add up to nothing.
pub proof fn lemma_idle_totals(commands: Seq<Movement>, thrust: Vector)
    requires
        all_idle(commands),
    ensures
        total_push(commands, thrust) == Vector::zero(),
        total_turn(commands, thrust) == Vector::zero(),
    decreases commands.len(),
{
    if commands.len() > 0 {
        let last = commands.last();
        assert(last == commands[commands.len() - 1]);
        assert(last.magnitude() == 0);
        assert(all_idle(commands.drop_last())) by {
            assert forall|i: int| 0 <= i < commands.drop_last().len() implies (
            #[trigger] commands.drop_last()[i]).magnitude() == 0 by {
                assert(commands.drop_last()[i] == commands[i]);
            }
        }
        lemma_idle_totals(commands.drop_last(), thrust);
        lemma_fixed_mul_zero(thrust.x);
        lemma_fixed_mul_zero(thrust.y);
        lemma_fixed_mul_zero(thrust.z);
        assert(push_of(last, thrust) == Vector::zero());
        assert(turn_of(last, thrust) == Vector::zero());
    }
}

/// With nothing to carry into world space, only the drag is left.
pub proof fn lemma_nothing_local(frame: Mat3, velocity: Vector, drag: Vector)
    ensures
        world_result(Vector::zero(), frame, velocity, drag) == pure_drag(velocity, drag),
{
    lemma_fixed_mul_zero(frame.x_axis@.x);
    lemma_fixed_mul_zero(frame.x_axis@.y);
    lemma_fixed_mul_zero(frame.x_axis@.z);
    lemma_fixed_mul_zero(frame.y_axis@.x);
    lemma_fixed_mul_zero(frame.y_axis@.y);
    lemma_fixed_mul_zero(frame.y_axis@.z);
    lemma_fixed_mul_zero(frame.z_axis@.x);
    lemma_fixed_mul_zero(frame.z_axis@.y);
    lemma_fixed_mul_zero(frame.z_axis@.z);
    assert(frame.apply(Vector::zero().saturated()) == Vector::zero());
}

/// When every command has magnitude zero, the force and the torque are the
/// drag alone, whatever the orientation and however many commands there
/// are.
pub proof fn lemma_idle_commands_leave_drag(
    commands: Seq<Movement>,
    buggy: Buggy,
    frame: Mat3,
    velocity: Velocity,
)
    requires
        all_idle(commands),
    ensures
        world_force(commands, buggy, frame, velocity.linvel@) == pure_drag(
            velocity.linvel@,
            buggy.drag@,
        ),
        world_torque(commands, buggy, frame, velocity.angvel@) == pure_drag(
            velocity.angvel@,
            buggy.drag@,
        ),
{
    lemma_idle_totals(commands, buggy.thrust@);
    lemma_nothing_local(frame, velocity.linvel@, buggy.drag@);
    lemma_nothing_local(frame, velocity.angvel@, buggy.drag@);
}

/// Drag that is not negative on any axis never pushes along the velocity.
pub proof fn lemma_pure_drag_opposes(velocity: Vec3, drag: Vec3)
    requires
        drag.x >= 0,
        drag.y >= 0,
        drag.z >= 0,
    ensures
        opposes(pure_drag(velocity@, drag@), velocity@),
        pure_drag(velocity@, drag@).dot(velocity@) <= 0,
{
    let v = velocity@;
    let d = drag@;
    let f = pure_drag(v, d);
    lemma_fixed_mul_sign(v.x, d.x);
    lemma_fixed_mul_sign(v.y, d.y);
    lemma_fixed_mul_sign(v.z, d.z);
    if v.x == 0 {
        lemma_fixed_mul_zero(d.x);
    }
    if v.y == 0 {
        lemma_fixed_mul_zero(d.y);
    }
    if v.z == 0 {
        lemma_fixed_mul_zero(d.z);
    }
    assert(opposes(f, v));
    lemma_opposed_product(f.x, v.x);
    lemma_opposed_product(f.y, v.y);
    lemma_opposed_product(f.z, v.z);
}

/// The fixed-point product of two numbers of opposite sign is not positive.
proof fn lemma_opposed_product(a: int, b: int)
    requires
        b > 0 ==> a <= 0,
        b < 0 ==> a >= 0,
        b == 0 ==> a == 0,
    ensures
        fixed_mul(a, b) <= 0,
{
    assert(a * b <= 0) by (nonlinear_arith)
        requires
            b > 0 ==> a <= 0,
            b < 0 ==> a >= 0,
            b == 0 ==> a == 0,
    ;
    lemma_descale_sign(a * b);
}

/// With an empty queue and drag that is not negative, the force opposes
/// the linear velocity and the torque opposes the angular velocity.
pub proof fn lemma_drag_alone_opposes_velocity(buggy: Buggy, frame: Mat3, velocity: Velocity)
    requires
        buggy.drag.x >= 0,
        buggy.drag.y >= 0,
        buggy.drag.z >= 0,
    ensures
        opposes(
            world_force(Seq::<Movement>::empty(), buggy, frame, velocity.linvel@),
            velocity.linvel@,
        ),
        world_force(Seq::<Movement>::empty(), buggy, frame, velocity.linvel@).dot(
            velocity.linvel@,
        ) <= 0,
        opposes(
            world_torque(Seq::<Movement>::empty(), buggy, frame, velocity.angvel@),
            velocity.angvel@,
        ),
{
    lemma_idle_commands_leave_drag(Seq::<Movement>::empty(), buggy, frame, velocity);
    lemma_pure_drag_opposes(velocity.linvel, buggy.drag);
    lemma_pure_drag_opposes(velocity.angvel, buggy.drag);
}

/// The velocity after one explicit integration step under `force`, where
/// `step` is the length of the tick divided by the mass of the body.
pub open spec fn coasted(velocity: Vector, force: Vector, step: int) -> Vector {
    velocity.plus(force.scaled(step))
}

/// The velocity after `ticks` integration steps with nothing but drag
/// acting.
pub open spec fn coasting(velocity: Vector, drag: Vector, step: int, ticks: nat) -> Vector
    decreases ticks,
{
    if ticks == 0 {
        velocity
    } else {
        let before = coasting(velocity, drag, step, (ticks - 1) as nat);
        coasted(before, pure_drag(before, drag), step)
    }
}

/// Whether drag `d` and step `h` are such that one step cannot overshoot
/// by more than the speed itself.
pub open spec fn gentle(d: int, h: int) -> bool {
    0 <= d && 0 <= h && d * h <= 2 * SCALE * SCALE
}

/// One component of a coasting step: the speed does not grow.
proof fn lemma_component_slows(v: int, d: int, h: int)
    requires
        gentle(d, h),
    ensures
        ({
            let f = saturate(-saturate(fixed_mul(v, d)));
            magnitude(v + fixed_mul(f, h)) <= magnitude(v)
        }),
{
    let g = fixed_mul(v, d);
    let f = saturate(-saturate(g));
    let k = fixed_mul(f, h);
    lemma_fixed_mul_sign(v, d);
    lemma_fixed_mul_bound(v, d);
    lemma_saturate_shrinks(g);
    lemma_saturate_shrinks(-saturate(g));
    lemma_fixed_mul_sign(f, h);
    lemma_fixed_mul_bound(f, h);
    let mv = magnitude(v);
    let mg = magnitude(g);
    let mf = magnitude(f);
    let mk = magnitude(k);
    assert(mf <= mg);
    assert(mk * SCALE <= mf * h);
    assert(mg * SCALE <= mv * d);
    assert(mk <= 2 * mv) by (nonlinear_arith)
        requires
            mk * 1_000_000 <= mf * h,
            mg * 1_000_000 <= mv * d,
            0 <= mf <= mg,
            0 <= mv,
            0 <= mk,
            0 <= d,
            0 <= h,
            d * h <= 2 * 1_000_000 * 1_000_000,
    {
        assert(mf * h <= mg * h);
        assert(mk * 1_000_000 * 1_000_000 <= mg * h * 1_000_000);
        assert(mg * h * 1_000_000 == (mg * 1_000_000) * h);
        assert((mg * 1_000_000) * h <= (mv * d) * h);
        assert((mv * d) * h == mv * (d * h));
        assert(mv * (d * h) <= mv * (2 * 1_000_000 * 1_000_000));
    }
}

/// A square grows with the magnitude.
proof fn lemma_square_grows(a: int, b: int)
    requires
        magnitude(a) <= magnitude(b),
    ensures
        a * a <= b * b,
{
    assert(a * a <= b * b) by (nonlinear_arith)
        requires
            (a <= b && -a <= b && b >= 0) || (a <= -b && -a <= -b && b <= 0),
    ;
}

/// With nothing but drag acting, one integration step never makes the body
/// faster, on any axis or overall, as long as drag and step are `gentle`
/// on every axis.
pub proof fn lemma_coasting_step_slows(velocity: Vector, drag: Vector, step: int)
    requires
        gentle(drag.x, step),
        gentle(drag.y, step),
        gentle(drag.z, step),
    ensures
        ({
            let next = coasted(velocity, pure_drag(velocity, drag), step);
            &&& magnitude(next.x) <= magnitude(velocity.x)
            &&& magnitude(next.y) <= magnitude(velocity.y)
            &&& magnitude(next.z) <= magnitude(velocity.z)
            &&& next.norm_squared() <= velocity.norm_squared()
        }),
{
    let next = coasted(velocity, pure_drag(velocity, drag), step);
    lemma_component_slows(velocity.x, drag.x, step);
    lemma_component_slows(velocity.y, drag.y, step);
    lemma_component_slows(velocity.z, drag.z, step);
    lemma_square_grows(next.x, velocity.x);
    lemma_square_grows(next.y, velocity.y);
    lemma_square_grows(next.z, velocity.z);
}

/// With nothing but drag acting, the speed never grows from one tick to
/// the next, over any number of ticks.
pub proof fn lemma_coasting_slows(velocity: Vector, drag: Vector, step: int, ticks: nat)
    requires
        gentle(drag.x, step),
        gentle(drag.y, step),
        gentle(drag.z, step),
    ensures
        coasting(velocity, drag, step, ticks + 1).norm_squared() <= coasting(
            velocity,
            drag,
            step,
            ticks,
        ).norm_squared(),
        coasting(velocity, drag, step, ticks).norm_squared() <= velocity.norm_squared(),
    decreases ticks,
{
    lemma_coasting_step_slows(coasting(velocity, drag, step, ticks), drag, step);
    if ticks > 0 {
        lemma_coasting_slows(velocity, drag, step, (ticks - 1) as nat);
    }
}

/// Whether speed `v` and drag `d` give a drag of at least one millionth,
/// the smallest amount that is not rounded away.
pub open spec fn bites(v: int, d: int) -> bool {
    magnitude(v) * d >= SCALE
}

/// One component of the drag: against the velocity, and not zero where
/// the drag bites.
proof fn lemma_component_opposes(v: int, d: int)
    requires
        d >= 0,
    ensures
        ({
            let f = saturate(-saturate(fixed_mul(v, d)));
            &&& f * v <= 0
            &&& bites(v, d) ==> f * v < 0
        }),
{
    let g = fixed_mul(v, d);
    let f = saturate(-saturate(g));
    lemma_fixed_mul_sign(v, d);
    if v == 0 {
        lemma_fixed_mul_zero(d);
    }
    assert(f * v <= 0) by (nonlinear_arith)
        requires
            v > 0 ==> f <= 0,
            v < 0 ==> f >= 0,
            v == 0 ==> f == 0,
    ;
    if bites(v, d) {
        let m = magnitude(v);
        let p = m * d;
        assert(p / 1_000_000 >= 1) by (nonlinear_arith)
            requires
                p >= 1_000_000,
        ;
        assert(magnitude(v * d) == p) by (nonlinear_arith)
            requires
                d >= 0,
                m == magnitude(v),
                p == m * d,
        ;
        assert(magnitude(g) >= 1);
        assert(f != 0);
        assert(v != 0) by (nonlinear_arith)
            requires
                magnitude(v) * d >= 1_000_000,
        ;
        assert(f * v < 0) by (nonlinear_arith)
            requires
                v > 0 ==> f < 0,
                v < 0 ==> f > 0,
                v != 0,
        ;
    }
}

/// Where the drag bites on at least one axis, the drag alone is strictly
/// against the velocity: the sum of the products of their components is
/// negative. Where it bites on none, the drag may be rounded away
/// altogether.
pub proof fn lemma_pure_drag_strictly_opposes(velocity: Vector, drag: Vector)
    requires
        drag.x >= 0,
        drag.y >= 0,
        drag.z >= 0,
        bites(velocity.x, drag.x) || bites(velocity.y, drag.y) || bites(velocity.z, drag.z),
    ensures
        ({
            let f = pure_drag(velocity, drag);
            f.x * velocity.x + f.y * velocity.y + f.z * velocity.z < 0
        }),
{
    lemma_component_opposes(velocity.x, drag.x);
    lemma_component_opposes(velocity.y, drag.y);
    lemma_component_opposes(velocity.z, drag.z);
}

/// Whether drag `d` and step `h` are such that one step takes away no more
/// than the speed itself.
pub open spec fn steady(d: int, h: int) -> bool {
    0 <= d && 0 <= h && d * h <= SCALE * SCALE
}

/// One component of a steady coasting step: it ends between rest and
/// where it began.
proof fn lemma_component_settles(v: int, d: int, h: int)
    requires
        steady(d, h),
    ensures
        ({
            let f = saturate(-saturate(fixed_mul(v, d)));
            let next = v + fixed_mul(f, h);
            &&& v >= 0 ==> 0 <= next <= v
            &&& v <= 0 ==> v <= next <= 0
        }),
{
    let g = fixed_mul(v, d);
    let f = saturate(-saturate(g));
    let k = fixed_mul(f, h);
    lemma_fixed_mul_sign(v, d);
    lemma_fixed_mul_bound(v, d);
    lemma_saturate_shrinks(g);
    lemma_saturate_shrinks(-saturate(g));
    lemma_fixed_mul_sign(f, h);
    lemma_fixed_mul_bound(f, h);
    let mv = magnitude(v);
    let mg = magnitude(g);
    let mf = magnitude(f);
    let mk = magnitude(k);
    assert(mk <= mv) by (nonlinear_arith)
        requires
            mk * 1_000_000 <= mf * h,
            mg * 1_000_000 <= mv * d,
            0 <= mf <= mg,
            0 <= mv,
            0 <= mk,
            0 <= d,
            0 <= h,
            d * h <= 1_000_000 * 1_000_000,
    {
        assert(mf * h <= mg * h);
        assert(mk * 1_000_000 * 1_000_000 <= mg * h * 1_000_000);
        assert(mg * h * 1_000_000 == (mg * 1_000_000) * h);
        assert((mg * 1_000_000) * h <= (mv * d) * h);
        assert((mv * d) * h == mv * (d * h));
        assert(mv * (d * h) <= mv * (1_000_000 * 1_000_000));
    }
}

/// A square grows strictly with the magnitude.
proof fn lemma_square_grows_strictly(a: int, b: int)
    requires
        magnitude(a) < magnitude(b),
    ensures
        a * a < b * b,
{
    let ma = magnitude(a);
    let mb = magnitude(b);
    assert(ma * ma < mb * mb) by (nonlinear_arith)
        requires
            0 <= ma < mb,
    ;
    assert(a * a == ma * ma && b * b == mb * mb) by (nonlinear_arith)
        requires
            ma == a || ma == -a,
            mb == b || mb == -b,
    ;
}

/// With nothing but drag acting and drag and step `steady` on every axis,
/// one integration step turns no component of the velocity around, and a
/// step that changes the velocity at all makes the body strictly slower.
/// A velocity so small that its drag is rounded away stays as it is.
pub proof fn lemma_steady_coasting_step(velocity: Vector, drag: Vector, step: int)
    requires
        steady(drag.x, step),
        steady(drag.y, step),
        steady(drag.z, step),
    ensures
        ({
            let next = coasted(velocity, pure_drag(velocity, drag), step);
            &&& velocity.x >= 0 ==> 0 <= next.x <= velocity.x
            &&& velocity.x <= 0 ==> velocity.x <= next.x <= 0
            &&& velocity.y >= 0 ==> 0 <= next.y <= velocity.y
            &&& velocity.y <= 0 ==> velocity.y <= next.y <= 0
            &&& velocity.z >= 0 ==> 0 <= next.z <= velocity.z
            &&& velocity.z <= 0 ==> velocity.z <= next.z <= 0
            &&& next != velocity ==> next.norm_squared() < velocity.norm_squared()
        }),
{
    let next = coasted(velocity, pure_drag(velocity, drag), step);
    lemma_component_settles(velocity.x, drag.x, step);
    lemma_component_settles(velocity.y, drag.y, step);
    lemma_component_settles(velocity.z, drag.z, step);
    lemma_square_grows(next.x, velocity.x);
    lemma_square_grows(next.y, velocity.y);
    lemma_square_grows(next.z, velocity.z);
    if next.x != velocity.x {
        lemma_square_grows_strictly(next.x, velocity.x);
    }
    if next.y != velocity.y {
        lemma_square_grows_strictly(next.y, velocity.y);
    }
    if next.z != velocity.z {
        lemma_square_grows_strictly(next.z, velocity.z);
    }
}

/// With an empty queue, drag that is not negative and a velocity on which
/// the drag bites on at least one axis, the force is strictly against the
/// linear velocity, whatever the orientation.
pub proof fn lemma_drag_alone_strictly_opposes(buggy: Buggy, frame: Mat3, velocity: Velocity)
    requires
        buggy.drag.x >= 0,
        buggy.drag.y >= 0,
        buggy.drag.z >= 0,
        bites(velocity.linvel.x as int, buggy.drag.x as int) || bites(
            velocity.linvel.y as int,
            buggy.drag.y as int,
        ) || bites(velocity.linvel.z as int, buggy.drag.z as int),
    ensures
        ({
            let f = world_force(Seq::<Movement>::empty(), buggy, frame, velocity.linvel@);
            f.x * velocity.linvel.x + f.y * velocity.linvel.y + f.z * velocity.linvel.z < 0
        }),
{
    lemma_idle_commands_leave_drag(Seq::<Movement>::empty(), buggy, frame, velocity);
    lemma_pure_drag_strictly_opposes(velocity.linvel@, buggy.drag@);
}

/// A buggy with an empty queue coasts: the force that the resolver gives
/// is the drag alone, so one integration step under it never makes the
/// buggy faster, whatever its orientation.
pub proof fn lemma_buggy_coasts(buggy: Buggy, frame: Mat3, velocity: Velocity, step: int)
    requires
        gentle(buggy.drag.x as int, step),
        gentle(buggy.drag.y as int, step),
        gentle(buggy.drag.z as int, step),
    ensures
        world_force(Seq::<Movement>::empty(), buggy, frame, velocity.linvel@) == pure_drag(
            velocity.linvel@,
            buggy.drag@,
        ),
        coasted(
            velocity.linvel@,
            world_force(Seq::<Movement>::empty(), buggy, frame, velocity.linvel@),
            step,
        ).norm_squared() <= velocity.linvel@.norm_squared(),
{
    lemma_idle_commands_leave_drag(Seq::<Movement>::empty(), buggy, frame, velocity);
    lemma_coasting_step_slows(velocity.linvel@, buggy.drag@, step);
}

/// The totals of two runs of commands add up to the totals of the runs
/// joined.
pub proof fn lemma_totals_of_joined(a: Seq<Movement>, b: Seq<Movement>, thrust: Vector)
    ensures
        total_push(a + b, thrust) == total_push(a, thrust).plus(total_push(b, thrust)),
        total_turn(a + b, thrust) == total_turn(a, thrust).plus(total_turn(b, thrust)),
    decreases b.len(),
{
    if b.len() == 0 {
        assert(a + b =~= a);
    } else {
        assert((a + b).drop_last() =~= a + b.drop_last());
        assert((a + b).last() == b.last());
        lemma_totals_of_joined(a, b.drop_last(), thrust);
    }
}

/// The order in which two runs of commands were queued does not change
/// the force or the torque.
pub proof fn lemma_order_is_irrelevant(
    a: Seq<Movement>,
    b: Seq<Movement>,
    buggy: Buggy,
    frame: Mat3,
    velocity: Velocity,
)
    ensures
        world_force(a + b, buggy, frame, velocity.linvel@) == world_force(
            b + a,
            buggy,
            frame,
            velocity.linvel@,
        ),
        world_torque(a + b, buggy, frame, velocity.angvel@) == world_torque(
            b + a,
            buggy,
            frame,
            velocity.angvel@,
        ),
{
    lemma_totals_of_joined(a, b, buggy.thrust@);
    lemma_totals_of_joined(b, a, buggy.thrust@);
}

/// Sums what the commands ask for, in body-local space.
fn accumulate(commands: &Vec<Movement>, thrust: Vec3) -> (sums: (Vec3, Vec3))
    ensures
        sums.0@ == total_push(commands@, thrust@).saturated(),
        sums.1@ == total_turn(commands@, thrust@).saturated(),
{
    let n: usize = commands.len();
    let mut fx: i128 = 0;
    let mut fy: i128 = 0;
    let mut fz: i128 = 0;
    let mut tx: i128 = 0;
    let mut ty: i128 = 0;
    let mut tz: i128 = 0;
    let mut i: usize = 0;
    while i < n
        invariant
            n == commands@.len(),
            i <= n,
            total_push(commands@.take(i as int), thrust@) == (Vector {
                x: fx as int,
                y: fy as int,
                z: fz as int,
            }),
            total_turn(commands@.take(i as int), thrust@) == (Vector {
                x: tx as int,
                y: ty as int,
                z: tz as int,
            }),
            -(i * 0x8000_0000_0000_0000) <= fx <= i * 0x8000_0000_0000_0000,
            -(i * 0x8000_0000_0000_0000) <= fy <= i * 0x8000_0000_0000_0000,
            -(i * 0x8000_0000_0000_0000) <= fz <= i * 0x8000_0000_0000_0000,
            -(i * 0x8000_0000_0000_0000) <= tx <= i * 0x8000_0000_0000_0000,
            -(i * 0x8000_0000_0000_0000) <= ty <= i * 0x8000_0000_0000_0000,
            -(i * 0x8000_0000_0000_0000) <= tz <= i * 0x8000_0000_0000_0000,
        decreases n - i,
    {
        let push: Vec3 = commands[i].as_lin_vec().times(thrust);
        let turn: Vec3 = commands[i].as_ang_vec().times(thrust);
        proof {
            let next = commands@.take(i + 1);
            assert(next.drop_last() =~= commands@.take(i as int));
            assert(next.last() == commands@[i as int]);
        }
        fx = fx + push.x as i128;
        fy = fy + push.y as i128;
        fz = fz + push.z as i128;
        tx = tx + turn.x as i128;
        ty = ty + turn.y as i128;
        tz = tz + turn.z as i128;
        i = i + 1;
    }
    assert(commands@.take(n as int) =~= commands@);
    (
        Vec3 { x: narrow(fx), y: narrow(fy), z: narrow(fz) },
        Vec3 { x: narrow(tx), y: narrow(ty), z: narrow(tz) },
    )
}

/// Resolves the queued commands into the force and torque for this tick
/// and empties the queue.
///
/// Each command is scaled by the thrust of its axis and the results are
/// summed; the sums are carried into world space by `local_to_global`, the
/// orientation read this tick; drag proportional to the velocity is then
/// taken away. With no command queued the result is the drag alone.
pub fn apply_movement(
    movements: &mut Movements,
    buggy: &Buggy,
    local_to_global: &Mat3,
    velocity: &Velocity,
) -> (forces: ExternalForce)
    ensures
        forces.force@ == world_force(old(movements)@, *buggy, *local_to_global, velocity.linvel@),
        forces.torque@ == world_torque(
            old(movements)@,
            *buggy,
            *local_to_global,
            velocity.angvel@,
        ),
        final(movements)@ == Seq::<Movement>::empty(),
{
    let commands: Vec<Movement> = movements.drain();
    let (local_force, local_torque) = accumulate(&commands, buggy.thrust);
    let force: Vec3 = local_to_global.transform_vector3(local_force).minus(
        velocity.linvel.times(buggy.drag),
    );
    let torque: Vec3 = local_to_global.transform_vector3(local_torque).minus(
        velocity.angvel.times(buggy.drag),
    );
    ExternalForce { force, torque }
}

} // verus!
