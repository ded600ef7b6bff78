use desert_car::buggy::{apply_movement, Buggy, Movement, Movements};
use desert_car::fixed::SCALE;
use desert_car::math::{Mat3, Vec3};
use desert_car::physics::{ExternalForce, Velocity};

fn units(x: i64, y: i64, z: i64) -> Vec3 {
    Vec3::new(x * SCALE, y * SCALE, z * SCALE)
}

fn buggy() -> Buggy {
    Buggy { thrust: units(5000, 2500, 2500), drag: units(100, 2, 100) }
}

fn at_rest() -> Velocity {
    Velocity { linvel: Vec3::zero(), angvel: Vec3::zero() }
}

/// A quarter turn to the left about the vertical axis: forward (+x)
/// becomes -z, right (+z) becomes +x.
fn quarter_turn() -> Mat3 {
    Mat3 { x_axis: units(0, 0, -1), y_axis: units(0, 1, 0), z_axis: units(1, 0, 0) }
}

fn queue(commands: &[Movement]) -> Movements {
    let mut q = Movements::new();
    for c in commands {
        q.push(*c);
    }
    q
}

fn resolve(commands: &[Movement], frame: &Mat3, velocity: &Velocity) -> ExternalForce {
    let mut q = queue(commands);
    let out = apply_movement(&mut q, &buggy(), frame, velocity);
    assert!(q.is_empty());
    out
}

#[test]
fn forward_push_at_rest() {
    let out = resolve(&[Movement::PushForward(21 * SCALE)], &Mat3::identity(), &at_rest());
    assert_eq!(out.force, units(105_000, 0, 0));
    assert_eq!(out.torque, Vec3::zero());
}

#[test]
fn each_command_acts_on_its_own_axis() {
    let id = Mat3::identity();
    let rest = at_rest();
    let m = 2 * SCALE;
    assert_eq!(resolve(&[Movement::PushBackward(m)], &id, &rest).force, units(-10_000, 0, 0));
    assert_eq!(resolve(&[Movement::PushLeft(m)], &id, &rest).force, units(0, 0, -5000));
    assert_eq!(resolve(&[Movement::PushRight(m)], &id, &rest).force, units(0, 0, 5000));
    assert_eq!(resolve(&[Movement::TurnLeft(m)], &id, &rest).torque, units(0, 5000, 0));
    assert_eq!(resolve(&[Movement::TurnRight(m)], &id, &rest).torque, units(0, -5000, 0));
    assert_eq!(resolve(&[Movement::TurnLeft(m)], &id, &rest).force, Vec3::zero());
    assert_eq!(resolve(&[Movement::PushRight(m)], &id, &rest).torque, Vec3::zero());
}

#[test]
fn push_with_drag() {
    let velocity = Velocity { linvel: units(10, -3, 0), angvel: units(0, 4, 0) };
    let out = resolve(&[Movement::PushForward(19 * SCALE)], &Mat3::identity(), &velocity);
    assert_eq!(out.force, units(95_000 - 1000, 6, 0));
    assert_eq!(out.torque, units(0, -8, 0));
}

#[test]
fn equal_commands_add_up() {
    let one = resolve(&[Movement::PushForward(SCALE)], &Mat3::identity(), &at_rest());
    let three = resolve(
        &[Movement::PushForward(SCALE), Movement::PushForward(SCALE), Movement::PushForward(SCALE)],
        &Mat3::identity(),
        &at_rest(),
    );
    assert_eq!(one.force, units(5000, 0, 0));
    assert_eq!(three.force, units(15_000, 0, 0));
}

#[test]
fn opposite_commands_cancel() {
    let out = resolve(
        &[Movement::PushForward(7 * SCALE), Movement::PushBackward(7 * SCALE)],
        &Mat3::identity(),
        &at_rest(),
    );
    assert_eq!(out.force, Vec3::zero());
}

#[test]
fn force_follows_the_orientation() {
    let out = resolve(
        &[Movement::PushForward(SCALE), Movement::TurnLeft(SCALE)],
        &quarter_turn(),
        &at_rest(),
    );
    assert_eq!(out.force, units(0, 0, -5000));
    assert_eq!(out.torque, units(0, 2500, 0));
}

#[test]
fn drag_is_not_turned_with_the_body() {
    let velocity = Velocity { linvel: units(1, 0, 0), angvel: Vec3::zero() };
    let out = resolve(&[Movement::PushForward(SCALE)], &quarter_turn(), &velocity);
    assert_eq!(out.force, units(-100, 0, -5000));
}

#[test]
fn zero_magnitude_commands_leave_pure_drag() {
    let velocity = Velocity { linvel: units(3, -4, 5), angvel: units(-1, 2, 0) };
    let idle = [
        Movement::PushForward(0),
        Movement::PushBackward(0),
        Movement::PushLeft(0),
        Movement::PushRight(0),
        Movement::TurnLeft(0),
        Movement::TurnRight(0),
    ];
    let with_idle = resolve(&idle, &quarter_turn(), &velocity);
    let with_none = resolve(&[], &quarter_turn(), &velocity);
    assert_eq!(with_idle, with_none);
    assert_eq!(with_idle.force, units(-300, 8, -500));
    assert_eq!(with_idle.torque, units(100, -4, 0));
}

#[test]
fn empty_queue_gives_drag_against_velocity() {
    let velocity = Velocity { linvel: units(3, -4, 0), angvel: units(0, 0, -6) };
    let out = resolve(&[], &Mat3::identity(), &velocity);
    assert_eq!(out.force, units(-300, 8, 0));
    assert_eq!(out.torque, units(0, 0, 600));
    assert!(out.force.dot(velocity.linvel) < 0);
    assert!(out.torque.dot(velocity.angvel) < 0);
}

#[test]
fn empty_queue_at_rest_gives_nothing() {
    let out = resolve(&[], &quarter_turn(), &at_rest());
    assert_eq!(out.force, Vec3::zero());
    assert_eq!(out.torque, Vec3::zero());
}

#[test]
fn coasting_slows_down_tick_by_tick() {
    let vehicle = Buggy { thrust: units(5000, 2500, 2500), drag: units(4, 1, 2) };
    let step = SCALE / 10;
    let mut velocity = Velocity { linvel: units(30, -20, 7), angvel: Vec3::zero() };
    let mut speed = velocity.linvel.dot(velocity.linvel);
    for _ in 0..40 {
        let mut q = Movements::new();
        let out = apply_movement(&mut q, &vehicle, &Mat3::identity(), &velocity);
        velocity.linvel = velocity.linvel.plus(out.force.scaled(step));
        let next = velocity.linvel.dot(velocity.linvel);
        assert!(next < speed);
        speed = next;
    }
    assert!(velocity.linvel.x > 0 && velocity.linvel.y < 0 && velocity.linvel.z > 0);
}

#[test]
fn order_of_commands_is_irrelevant() {
    let velocity = Velocity { linvel: units(1, 2, 3), angvel: units(4, 5, 6) };
    let a = [
        Movement::PushForward(3 * SCALE + 1),
        Movement::TurnRight(5 * SCALE),
        Movement::PushLeft(7),
        Movement::PushBackward(SCALE),
    ];
    let mut b = a;
    b.reverse();
    assert_eq!(resolve(&a, &quarter_turn(), &velocity), resolve(&b, &quarter_turn(), &velocity));
}

#[test]
fn the_queue_is_emptied_even_without_commands() {
    let mut q = Movements::new();
    apply_movement(&mut q, &buggy(), &Mat3::identity(), &at_rest());
    assert_eq!(q.len(), 0);
    q.push(Movement::TurnLeft(1));
    q.push(Movement::TurnLeft(1));
    apply_movement(&mut q, &buggy(), &Mat3::identity(), &at_rest());
    assert_eq!(q.len(), 0);
}

#[test]
fn huge_forces_saturate() {
    let vehicle = Buggy { thrust: Vec3::new(i64::MAX, 0, 0), drag: Vec3::zero() };
    let mut q = queue(&[Movement::PushForward(i64::MAX), Movement::PushForward(i64::MAX)]);
    let out = apply_movement(&mut q, &vehicle, &Mat3::identity(), &at_rest());
    assert_eq!(out.force, Vec3::new(i64::MAX, 0, 0));

    let mut q = queue(&[Movement::PushBackward(i64::MIN)]);
    let out = apply_movement(&mut q, &vehicle, &Mat3::identity(), &at_rest());
    assert_eq!(out.force, Vec3::new(i64::MAX, 0, 0));
}

#[test]
fn command_vectors() {
    assert_eq!(Movement::PushForward(5).as_lin_vec(), Vec3::new(5, 0, 0));
    assert_eq!(Movement::PushBackward(5).as_lin_vec(), Vec3::new(-5, 0, 0));
    assert_eq!(Movement::PushLeft(5).as_lin_vec(), Vec3::new(0, 0, -5));
    assert_eq!(Movement::PushRight(5).as_lin_vec(), Vec3::new(0, 0, 5));
    assert_eq!(Movement::TurnLeft(5).as_lin_vec(), Vec3::zero());
    assert_eq!(Movement::TurnRight(5).as_lin_vec(), Vec3::zero());
    assert_eq!(Movement::TurnLeft(5).as_ang_vec(), Vec3::new(0, 5, 0));
    assert_eq!(Movement::TurnRight(5).as_ang_vec(), Vec3::new(0, -5, 0));
    assert_eq!(Movement::PushForward(5).as_ang_vec(), Vec3::zero());
    assert_eq!(Movement::PushBackward(i64::MIN).as_lin_vec(), Vec3::new(i64::MAX, 0, 0));
}

#[test]
fn queue_keeps_order_and_duplicates() {
    let mut q = Movements::new();
    assert!(q.is_empty());
    q.push(Movement::TurnLeft(1));
    q.push(Movement::PushForward(2));
    q.push(Movement::TurnLeft(1));
    assert_eq!(q.len(), 3);
    let drained = q.drain();
    assert_eq!(
        drained,
        vec![Movement::TurnLeft(1), Movement::PushForward(2), Movement::TurnLeft(1)]
    );
    assert!(q.is_empty());
    assert_eq!(q.drain(), vec![]);
}
