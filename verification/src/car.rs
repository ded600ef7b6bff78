//! The car: its stuck timer, the checks that end a run, and what happens
//! to the body when a run ends and when it starts again.

use vstd::prelude::*;
use crate::fixed::{fixed_mul, lemma_fixed_mul_zero, saturate, SCALE};
use crate::math::{Quat, Vec3, Vector};
use crate::physics::{Transform, Velocity};

verus! {

/// How long the car may lie tilted on the ground before the run ends, in
/// microseconds.
pub const STUCK_THRESHOLD: u64 = 250_000;

/// How long after a reset the stuck check stays off, in microseconds.
pub const RESET_GRACE_PERIOD: u64 = 500_000;

/// The orientation score below which the car counts as tilted.
pub const TILT_LIMIT: i64 = 500_000;

/// The height below which the car has left the level.
pub const FLOOR_Y: i64 = -200_000_000;

/// The downward speed given to a car that is not falling when a run ends.
pub const FALL_SPEED: i64 = -5_000_000;

/// The share of its velocity that a car sliding on the ground keeps per
/// tick once the run has ended.
pub const SLIDE_DAMPING: i64 = 900_000;

pub const CAR_START_X: i64 = -700_000_000;

pub const CAR_START_Y: i64 = 10_000_000;

pub const CAR_START_Z: i64 = 0;

/// Per-axis thrust and drag of the car, and the two choices that its
/// resolver leaves to the tuning.
#[derive(Clone, Copy, Debug, PartialEq, Eq, Structural)]
pub struct Car {
    pub thrust: Vec3,
    pub drag: Vec3,
    /// The share of the thrust that acts while the car is in the air.
    /// `SCALE` is all of it.
    pub air_thrust: i64,
    /// The share of the vertical drag that acts on spin about the vertical
    /// axis. `SCALE` is all of it.
    pub yaw_drag: i64,
}

impl Car {
    /// Whether the car has full thrust in the air and full drag on spin
    /// about the vertical axis.
    pub open spec fn plain(self) -> bool {
        self.air_thrust == SCALE && self.yaw_drag == SCALE
    }

    /// A car with full thrust in the air and full drag on every axis.
    pub fn new(thrust: Vec3, drag: Vec3) -> (car: Car)
        ensures
            car == (Car { thrust, drag, air_thrust: SCALE, yaw_drag: SCALE }),
            car.plain(),
    {
        Car { thrust, drag, air_thrust: SCALE, yaw_drag: SCALE }
    }
}

/// Where the car starts a run.
pub open spec fn start_position() -> Vector {
    Vector { x: CAR_START_X as int, y: CAR_START_Y as int, z: CAR_START_Z as int }
}

pub fn car_start_position() -> (p: Vec3)
    ensures
        p@ == start_position(),
{
    Vec3 { x: CAR_START_X, y: CAR_START_Y, z: CAR_START_Z }
}

/// How upright the car is: the dot product of its up direction with the
/// world's. `SCALE` is upright, `-SCALE` is upside down.
pub open spec fn score_of(car_up: Vector) -> int {
    saturate(car_up.dot(Vector::unit_y()))
}

/// Whether a car with this up direction counts as tilted.
pub open spec fn tilted(car_up: Vector) -> bool {
    score_of(car_up) < TILT_LIMIT
}

pub fn orientation_score(car_up: Vec3) -> (score: i64)
    ensures
        score == score_of(car_up@),
{
    car_up.dot(Vec3::unit_y())
}

/// What the stuck check has seen so far.
#[derive(Clone, Copy, Debug, PartialEq, Eq, Structural)]
pub enum Phase {
    /// The car is not lying tilted on the ground.
    Normal,
    /// The car lies tilted on the ground, not yet for long enough.
    AccumulatingStuck,
    /// The car has lain tilted on the ground for the whole threshold.
    Terminated,
}

/// The model of a [`StuckTimer`]: two durations in microseconds.
pub ghost struct Timer {
    pub stuck_duration: nat,
    pub reset_grace_period: nat,
}

impl Timer {
    /// The timer one tick later. While the grace period runs it only counts
    /// down. After it, a tilted car on the ground adds the tick to the
    /// stuck duration; anything else clears the stuck duration.
    pub open spec fn tick(self, car_up: Vector, grounded: bool, delta: nat) -> Timer {
        if self.reset_grace_period > 0 {
            Timer {
                stuck_duration: 0,
                reset_grace_period: if delta >= self.reset_grace_period {
                    0
                } else {
                    (self.reset_grace_period - delta) as nat
                },
            }
        } else if tilted(car_up) && grounded {
            Timer {
                stuck_duration: if self.stuck_duration + delta > u64::MAX {
                    u64::MAX as nat
                } else {
                    self.stuck_duration + delta
                },
                reset_grace_period: 0,
            }
        } else {
            Timer { stuck_duration: 0, reset_grace_period: 0 }
        }
    }

    pub open spec fn phase(self) -> Phase {
        if self.stuck_duration >= STUCK_THRESHOLD {
            Phase::Terminated
        } else if self.stuck_duration > 0 {
            Phase::AccumulatingStuck
        } else {
            Phase::Normal
        }
    }

    /// The timer after one tick for each of `deltas`, with the same up
    /// direction and ground contact in every tick.
    pub open spec fn after_ticks(self, car_up: Vector, grounded: bool, deltas: Seq<u64>) -> Timer
        decreases deltas.len(),
    {
        if deltas.len() == 0 {
            self
        } else {
            self.after_ticks(car_up, grounded, deltas.drop_last()).tick(
                car_up,
                grounded,
                deltas.last() as nat,
            )
        }
    }
}

/// The sum of the tick lengths.
pub open spec fn elapsed(deltas: Seq<u64>) -> nat
    decreases deltas.len(),
{
    if deltas.len() == 0 {
        0
    } else {
        elapsed(deltas.drop_last()) + deltas.last() as nat
    }
}

/// How long the car has been stuck, and how much of the grace period after
/// a reset is left. A running grace period implies a stuck duration of
/// zero.
#[derive(Clone, Copy, Debug, PartialEq, Eq)]
pub struct StuckTimer {
    stuck_duration: u64,
    reset_grace_period: u64,
}

impl View for StuckTimer {
    type V = Timer;

    closed spec fn view(&self) -> Timer {
        Timer {
            stuck_duration: self.stuck_duration as nat,
            reset_grace_period: self.reset_grace_period as nat,
        }
    }
}

impl Default for StuckTimer {
    fn default() -> (timer: StuckTimer)
        ensures
            timer@ == (Timer { stuck_duration: 0, reset_grace_period: 0 }),
    {
        StuckTimer { stuck_duration: 0, reset_grace_period: 0 }
    }
}

impl StuckTimer {
    /// The timer of a car that has just been put back at the start.
    pub fn after_reset() -> (timer: StuckTimer)
        ensures
            timer@ == (Timer {
                stuck_duration: 0,
                reset_grace_period: RESET_GRACE_PERIOD as nat,
            }),
    {
        StuckTimer { stuck_duration: 0, reset_grace_period: RESET_GRACE_PERIOD }
    }

    pub fn stuck_duration(&self) -> (d: u64)
        ensures
            d == self@.stuck_duration,
    {
        self.stuck_duration
    }

    pub fn reset_grace_period(&self) -> (d: u64)
        ensures
            d == self@.reset_grace_period,
    {
        self.reset_grace_period
    }

    pub fn phase(&self) -> (p: Phase)
        ensures
            p == self@.phase(),
    {
        if self.stuck_duration >= STUCK_THRESHOLD {
            Phase::Terminated
        } else if self.stuck_duration > 0 {
            Phase::AccumulatingStuck
        } else {
            Phase::Normal
        }
    }
}

/// Advances the stuck timer by one tick of `delta` microseconds and says
/// whether the run ends.
///
/// `car_up` is the car's up direction in world space and `grounded` says
/// whether the car touches anything this tick. The run ends when the car
/// has lain tilted on the ground for `STUCK_THRESHOLD`.
pub fn check_stuck(car_up: Vec3, stuck_timer: &mut StuckTimer, grounded: bool, delta: u64) -> (game_over: bool)
    ensures
        final(stuck_timer)@ == old(stuck_timer)@.tick(car_up@, grounded, delta as nat),
        game_over == (final(stuck_timer)@.phase() == Phase::Terminated),
{
    if stuck_timer.reset_grace_period > 0 {
        stuck_timer.reset_grace_period = stuck_timer.reset_grace_period.saturating_sub(delta);
        stuck_timer.stuck_duration = 0;
        return false;
    }
    let is_upside_down_or_on_side: bool = orientation_score(car_up) < TILT_LIMIT;
    if is_upside_down_or_on_side && grounded {
        stuck_timer.stuck_duration = stuck_timer.stuck_duration.saturating_add(delta);
        stuck_timer.stuck_duration >= STUCK_THRESHOLD
    } else {
        stuck_timer.stuck_duration = 0;
        false
    }
}

/// The orientation score is the vertical component of the up direction.
/// An upright car scores `SCALE`, a car on its roof `-SCALE`.
pub proof fn lemma_score_is_height_of_up(car_up: Vec3)
    ensures
        score_of(car_up@) == car_up.y,
        score_of(Vector::unit_y()) == SCALE,
        score_of(Vector::unit_y().neg()) == -SCALE,
{
    lemma_fixed_mul_zero(car_up@.x);
    lemma_fixed_mul_zero(car_up@.z);
    lemma_fixed_mul_zero(0);
    let y: int = car_up@.y;
    assert((y * 1_000_000) / 1_000_000 == y && (-(y * 1_000_000)) / 1_000_000 == -y)
        by (nonlinear_arith);
    assert(-(1_000_000int) * 1_000_000 == -1_000_000_000_000int) by (nonlinear_arith);
    assert(1_000_000int * 1_000_000 == 1_000_000_000_000int) by (nonlinear_arith);
}

/// While the grace period runs, the stuck duration stays at zero and the
/// stuck check does not end the run, whatever the orientation and the
/// ground contact.
pub proof fn lemma_grace_suppresses(timer: Timer, car_up: Vector, grounded: bool, delta: nat)
    requires
        timer.reset_grace_period > 0,
    ensures
        timer.tick(car_up, grounded, delta).stuck_duration == 0,
        timer.tick(car_up, grounded, delta).phase() == Phase::Normal,
        timer.tick(car_up, grounded, delta).reset_grace_period < timer.reset_grace_period
            || delta == 0,
{
}

/// A tilted car on the ground, with no grace period left, has been stuck
/// for as long as the ticks add up to.
pub proof fn lemma_stuck_accumulates(timer: Timer, car_up: Vector, deltas: Seq<u64>)
    requires
        timer.reset_grace_period == 0,
        timer.stuck_duration <= u64::MAX,
        tilted(car_up),
    ensures
        timer.after_ticks(car_up, true, deltas).reset_grace_period == 0,
        timer.after_ticks(car_up, true, deltas).stuck_duration == if timer.stuck_duration
            + elapsed(deltas) > u64::MAX {
            u64::MAX as nat
        } else {
            timer.stuck_duration + elapsed(deltas)
        },
    decreases deltas.len(),
{
    if deltas.len() > 0 {
        lemma_stuck_accumulates(timer, car_up, deltas.drop_last());
    }
}

/// A tilted car on the ground, starting from a cleared timer, ends the run
/// exactly when the ticks add up to the threshold. Until then it is
/// accumulating as soon as any time has passed.
pub proof fn lemma_stuck_threshold(car_up: Vector, deltas: Seq<u64>)
    requires
        tilted(car_up),
    ensures
        ({
            let start = Timer { stuck_duration: 0, reset_grace_period: 0 };
            let end = start.after_ticks(car_up, true, deltas);
            &&& end.phase() == Phase::Terminated <==> elapsed(deltas) >= STUCK_THRESHOLD
            &&& end.phase() == Phase::AccumulatingStuck <==> 0 < elapsed(deltas) < STUCK_THRESHOLD
        }),
{
    lemma_stuck_accumulates(Timer { stuck_duration: 0, reset_grace_period: 0 }, car_up, deltas);
}

/// The grace period counts down by the length of each tick and keeps the
/// stuck duration at zero for as long as it has not run out before the
/// last tick.
pub proof fn lemma_grace_counts_down(timer: Timer, car_up: Vector, grounded: bool, deltas: Seq<u64>)
    requires
        timer.stuck_duration == 0,
        deltas.len() > 0 ==> elapsed(deltas.drop_last()) < timer.reset_grace_period,
    ensures
        timer.after_ticks(car_up, grounded, deltas).stuck_duration == 0,
        timer.after_ticks(car_up, grounded, deltas).reset_grace_period == if elapsed(deltas)
            >= timer.reset_grace_period {
            0
        } else {
            (timer.reset_grace_period - elapsed(deltas)) as nat
        },
    decreases deltas.len(),
{
    if deltas.len() > 0 {
        let before = deltas.drop_last();
        if before.len() > 0 {
            assert(elapsed(before.drop_last()) <= elapsed(before));
        }
        lemma_grace_counts_down(timer, car_up, grounded, before);
    }
}

/// After a reset the stuck duration is zero and the grace period is
/// positive. Once ticks have used the grace period up, the next tick of a
/// tilted car on the ground counts again, and ends the run if it alone
/// reaches the threshold.
pub proof fn lemma_detection_resumes(car_up: Vector, deltas: Seq<u64>, delta: u64)
    requires
        tilted(car_up),
        deltas.len() > 0,
        elapsed(deltas.drop_last()) < RESET_GRACE_PERIOD <= elapsed(deltas),
    ensures
        ({
            let reset = Timer { stuck_duration: 0, reset_grace_period: RESET_GRACE_PERIOD as nat };
            let settled = reset.after_ticks(car_up, true, deltas);
            let next = settled.tick(car_up, true, delta as nat);
            &&& reset.reset_grace_period > 0
            &&& settled == (Timer { stuck_duration: 0, reset_grace_period: 0 })
            &&& next.stuck_duration == delta
            &&& next.phase() == Phase::Terminated <==> delta >= STUCK_THRESHOLD
        }),
{
    let reset = Timer { stuck_duration: 0, reset_grace_period: RESET_GRACE_PERIOD as nat };
    lemma_grace_counts_down(reset, car_up, true, deltas);
}

/// Whether the car has fallen off the level.
pub fn check_game_over(car_transform: &Transform) -> (game_over: bool)
    ensures
        game_over == (car_transform.translation.y < FLOOR_Y),
{
    car_transform.translation.y < FLOOR_Y
}

/// Stops the car where it is when the run ends, but lets it fall: the
/// horizontal and the angular velocity become zero, and a car that is not
/// already falling is given `FALL_SPEED`.
pub fn stop_car_momentum(velocity: &mut Velocity)
    ensures
        final(velocity).linvel.x == 0,
        final(velocity).linvel.z == 0,
        final(velocity).linvel.y == if old(velocity).linvel.y >= 0 {
            FALL_SPEED
        } else {
            old(velocity).linvel.y
        },
        final(velocity).angvel@ == Vector::zero(),
{
    velocity.linvel.x = 0;
    velocity.linvel.z = 0;
    velocity.angvel = Vec3::zero();
    if velocity.linvel.y >= 0 {
        velocity.linvel.y = FALL_SPEED;
    }
}

/// The velocity of a car one tick after the run has ended.
///
/// In the air nothing changes. On the ground a car slower than one unit
/// per second stops; a faster one keeps `SLIDE_DAMPING` of its linear and
/// angular velocity.
pub open spec fn frozen(velocity: Velocity, grounded: bool) -> Velocity {
    if !grounded {
        velocity
    } else if velocity.linvel@.norm_squared() < SCALE * SCALE {
        Velocity { linvel: Vec3 { x: 0, y: 0, z: 0 }, angvel: Vec3 { x: 0, y: 0, z: 0 } }
    } else {
        Velocity {
            linvel: damped(velocity.linvel),
            angvel: damped(velocity.angvel),
        }
    }
}

/// `v` with every component multiplied by `SLIDE_DAMPING`.
pub open spec fn damped(v: Vec3) -> Vec3 {
    Vec3 {
        x: saturate(fixed_mul(v.x as int, SLIDE_DAMPING as int)) as i64,
        y: saturate(fixed_mul(v.y as int, SLIDE_DAMPING as int)) as i64,
        z: saturate(fixed_mul(v.z as int, SLIDE_DAMPING as int)) as i64,
    }
}

pub fn freeze_car_on_ground(velocity: &mut Velocity, grounded: bool)
    ensures
        *final(velocity) == frozen(*old(velocity), grounded),
{
    if grounded {
        if velocity.linvel.shorter_than(SCALE) {
            velocity.linvel = Vec3::zero();
            velocity.angvel = Vec3::zero();
        } else {
            velocity.linvel = velocity.linvel.scaled(SLIDE_DAMPING);
            velocity.angvel = velocity.angvel.scaled(SLIDE_DAMPING);
        }
    }
}

/// Puts the car back at the start for another run: upright at the start
/// position, at rest, with a cleared stuck duration and a fresh grace
/// period.
pub fn reset_car_on_exit_game_over(
    transform: &mut Transform,
    velocity: &mut Velocity,
    stuck_timer: &mut StuckTimer,
)
    ensures
        final(transform).translation@ == start_position(),
        final(transform).rotation == Quat::spec_identity(),
        final(velocity).linvel@ == Vector::zero(),
        final(velocity).angvel@ == Vector::zero(),
        final(stuck_timer)@ == (Timer {
            stuck_duration: 0,
            reset_grace_period: RESET_GRACE_PERIOD as nat,
        }),
{
    transform.translation = car_start_position();
    transform.rotation = Quat::identity();
    velocity.linvel = Vec3::zero();
    velocity.angvel = Vec3::zero();
    *stuck_timer = StuckTimer::after_reset();
}

} // verus!
