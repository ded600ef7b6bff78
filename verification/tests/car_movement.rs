use desert_car::buggy::{Buggy, Movement, Movements};
use desert_car::car::Car;
use desert_car::fixed::SCALE;
use desert_car::input::{get_car_movement, ActionState, Buttons, CarAction};
use desert_car::math::{Mat3, Quat, Vec3};
use desert_car::movement::{apply_movement, CarMovement, CarMovements};
use desert_car::physics::{Transform, Velocity};
use desert_car::scene::car_tuning;

fn units(x: i64, y: i64, z: i64) -> Vec3 {
    Vec3::new(x * SCALE, y * SCALE, z * SCALE)
}

fn at_rest() -> Velocity {
    Velocity { linvel: Vec3::zero(), angvel: Vec3::zero() }
}

fn no_buttons() -> Buttons {
    Buttons {
        push_forward: false,
        push_backward: false,
        turn_left: false,
        turn_right: false,
        boost: false,
        reset: false,
        play_again: false,
    }
}

fn idle() -> ActionState {
    ActionState { held: no_buttons(), fresh: no_buttons(), turn_axis_x: 0 }
}

fn somewhere() -> Transform {
    Transform {
        translation: units(1, 2, 3),
        rotation: Quat { x: 100_000, y: 200_000, z: 300_000, w: 900_000 },
    }
}

fn mapped(state: &ActionState) -> Vec<CarMovement> {
    let mut q = CarMovements::new();
    let mut t = somewhere();
    get_car_movement(&mut q, &mut t, state);
    q.drain()
}

/// A car with full thrust in the air and full drag on every axis.
fn plain_car() -> Car {
    Car::new(units(5000, 2500, 2500), units(100, 2, 100))
}

#[test]
fn tuning_of_the_car() {
    let car: Car = car_tuning();
    assert_eq!(car.thrust, units(5000, 2500, 2500));
    assert_eq!(car.drag, units(100, 2, 100));
    assert_eq!(car.air_thrust, 1);
    assert_eq!(car.yaw_drag, 800_000);
}

#[test]
fn plain_car_has_both_shares_at_one() {
    let car = plain_car();
    assert_eq!(car.thrust, units(5000, 2500, 2500));
    assert_eq!(car.drag, units(100, 2, 100));
    assert_eq!(car.air_thrust, SCALE);
    assert_eq!(car.yaw_drag, SCALE);
}

#[test]
fn car_push_on_the_ground() {
    for car in [plain_car(), car_tuning()] {
        let mut q = CarMovements::new();
        q.push(CarMovement::PushForward(13 * SCALE));
        let out = apply_movement(&mut q, &car, &Mat3::identity(), &at_rest(), true);
        assert_eq!(out.force, units(65_000, 0, 0));
        assert_eq!(out.torque, Vec3::zero());
        assert_eq!(q.len(), 0);
    }
}

#[test]
fn plain_car_pushes_in_the_air_as_on_the_ground() {
    let mut q = CarMovements::new();
    q.push(CarMovement::PushForward(13 * SCALE));
    q.push(CarMovement::TurnLeft(23 * SCALE));
    let out = apply_movement(&mut q, &plain_car(), &Mat3::identity(), &at_rest(), false);
    assert_eq!(out.force, units(65_000, 0, 0));
    assert_eq!(out.torque, units(0, 57_500, 0));
}

#[test]
fn air_share_of_a_millionth() {
    let mut q = CarMovements::new();
    q.push(CarMovement::PushForward(13 * SCALE));
    q.push(CarMovement::TurnLeft(23 * SCALE));
    let out = apply_movement(&mut q, &car_tuning(), &Mat3::identity(), &at_rest(), false);
    assert_eq!(out.force, Vec3::new(65_000, 0, 0));
    assert_eq!(out.torque, Vec3::new(0, 57_500, 0));
}

#[test]
fn air_share_of_a_half() {
    let mut car = plain_car();
    car.air_thrust = SCALE / 2;
    let mut q = CarMovements::new();
    q.push(CarMovement::PushForward(13 * SCALE));
    let out = apply_movement(&mut q, &car, &Mat3::identity(), &at_rest(), false);
    assert_eq!(out.force, units(32_500, 0, 0));
    q.push(CarMovement::PushForward(13 * SCALE));
    let out = apply_movement(&mut q, &car, &Mat3::identity(), &at_rest(), true);
    assert_eq!(out.force, units(65_000, 0, 0));
}

#[test]
fn turn_against_spin() {
    let velocity = Velocity { linvel: Vec3::zero(), angvel: units(0, 10, 0) };
    let mut q = CarMovements::new();
    q.push(CarMovement::TurnLeft(23 * SCALE));
    let out = apply_movement(&mut q, &plain_car(), &Mat3::identity(), &velocity, true);
    assert_eq!(out.torque, units(0, 57_480, 0));
    assert_eq!(out.force, Vec3::zero());

    let mut q = CarMovements::new();
    q.push(CarMovement::TurnLeft(23 * SCALE));
    let out = apply_movement(&mut q, &car_tuning(), &Mat3::identity(), &velocity, true);
    assert_eq!(out.torque, units(0, 57_484, 0));
}

#[test]
fn plain_car_is_resolved_as_a_buggy() {
    let velocity = Velocity { linvel: units(2, 5, -1), angvel: units(1, 10, -1) };
    let frame = Mat3 { x_axis: units(0, 0, -1), y_axis: units(0, 1, 0), z_axis: units(1, 0, 0) };
    let buggy = Buggy { thrust: units(5000, 2500, 2500), drag: units(100, 2, 100) };
    for grounded in [true, false] {
        let mut q = CarMovements::new();
        q.push(CarMovement::TurnLeft(23 * SCALE));
        q.push(CarMovement::PushBackward(7 * SCALE + 3));
        q.push(CarMovement::TurnRight(SCALE));
        q.push(CarMovement::PushForward(13 * SCALE));
        let mut b = Movements::new();
        b.push(Movement::TurnLeft(23 * SCALE));
        b.push(Movement::PushBackward(7 * SCALE + 3));
        b.push(Movement::TurnRight(SCALE));
        b.push(Movement::PushForward(13 * SCALE));
        assert_eq!(
            apply_movement(&mut q, &plain_car(), &frame, &velocity, grounded),
            desert_car::buggy::apply_movement(&mut b, &buggy, &frame, &velocity)
        );
    }
}

#[test]
fn car_turns() {
    let mut q = CarMovements::new();
    q.push(CarMovement::TurnLeft(23 * SCALE));
    q.push(CarMovement::TurnRight(3 * SCALE));
    let out = apply_movement(&mut q, &plain_car(), &Mat3::identity(), &at_rest(), true);
    assert_eq!(out.torque, units(0, 50_000, 0));
    assert_eq!(out.force, Vec3::zero());
}

#[test]
fn car_drag_is_velocity_times_drag() {
    let velocity = Velocity { linvel: units(2, 5, -1), angvel: units(1, 10, -1) };
    for grounded in [true, false] {
        let mut q = CarMovements::new();
        let out = apply_movement(&mut q, &plain_car(), &Mat3::identity(), &velocity, grounded);
        assert_eq!(out.force, units(-200, -10, 100));
        assert_eq!(out.torque, units(-100, -20, 100));
    }
}

#[test]
fn yaw_share_weakens_the_drag_about_the_vertical_axis_only() {
    let velocity = Velocity { linvel: units(2, 5, -1), angvel: units(1, 10, -1) };
    let mut q = CarMovements::new();
    let out = apply_movement(&mut q, &car_tuning(), &Mat3::identity(), &velocity, true);
    assert_eq!(out.force, units(-200, -10, 100));
    assert_eq!(out.torque, units(-100, -16, 100));

    let mut car = plain_car();
    car.yaw_drag = 0;
    let out = apply_movement(&mut q, &car, &Mat3::identity(), &velocity, true);
    assert_eq!(out.torque, units(-100, 0, 100));
}

#[test]
fn car_idle_commands_leave_pure_drag() {
    let velocity = Velocity { linvel: units(2, 5, -1), angvel: units(1, 10, -1) };
    let frame = Mat3 { x_axis: units(0, 0, -1), y_axis: units(0, 1, 0), z_axis: units(1, 0, 0) };
    for grounded in [true, false] {
        let mut q = CarMovements::new();
        q.push(CarMovement::PushForward(0));
        q.push(CarMovement::PushBackward(0));
        q.push(CarMovement::TurnLeft(0));
        q.push(CarMovement::TurnRight(0));
        let out = apply_movement(&mut q, &plain_car(), &frame, &velocity, grounded);
        assert_eq!(out.force, units(-200, -10, 100));
        assert_eq!(out.torque, units(-100, -20, 100));

        q.push(CarMovement::PushForward(0));
        q.push(CarMovement::TurnRight(0));
        let with_idle = apply_movement(&mut q, &car_tuning(), &frame, &velocity, grounded);
        let with_none = apply_movement(&mut q, &car_tuning(), &frame, &velocity, grounded);
        assert_eq!(with_idle, with_none);
    }
}

#[test]
fn car_coasts_to_a_lower_speed() {
    let car = Car::new(units(5000, 2500, 2500), units(4, 1, 2));
    let step = SCALE / 10;
    let mut velocity = Velocity { linvel: units(30, -20, 7), angvel: Vec3::zero() };
    for tick in 0..25 {
        let mut q = CarMovements::new();
        let out = apply_movement(&mut q, &car, &Mat3::identity(), &velocity, tick % 2 == 0);
        assert!(out.force.x < 0 && out.force.y > 0 && out.force.z < 0);
        let next = velocity.linvel.plus(out.force.scaled(step));
        assert!(0 < next.x && next.x < velocity.linvel.x);
        assert!(velocity.linvel.y < next.y && next.y < 0);
        assert!(0 < next.z && next.z < velocity.linvel.z);
        velocity.linvel = next;
    }
}

#[test]
fn drag_below_a_millionth_is_rounded_away() {
    let car = Car::new(units(5000, 2500, 2500), Vec3::new(SCALE / 2, SCALE / 2, SCALE / 2));
    let velocity = Velocity { linvel: Vec3::new(1, -1, 1), angvel: Vec3::zero() };
    let mut q = CarMovements::new();
    let out = apply_movement(&mut q, &car, &Mat3::identity(), &velocity, true);
    assert_eq!(out.force, Vec3::zero());
    let velocity = Velocity { linvel: Vec3::new(2, -1, 1), angvel: Vec3::zero() };
    let out = apply_movement(&mut q, &car, &Mat3::identity(), &velocity, true);
    assert_eq!(out.force, Vec3::new(-1, 0, 0));
}

#[test]
fn car_command_vectors() {
    assert_eq!(CarMovement::PushForward(5).as_lin_vec(), Vec3::new(5, 0, 0));
    assert_eq!(CarMovement::PushBackward(5).as_lin_vec(), Vec3::new(-5, 0, 0));
    assert_eq!(CarMovement::TurnLeft(5).as_lin_vec(), Vec3::zero());
    assert_eq!(CarMovement::TurnLeft(5).as_ang_vec(), Vec3::new(0, 5, 0));
    assert_eq!(CarMovement::TurnRight(5).as_ang_vec(), Vec3::new(0, -5, 0));
    assert_eq!(CarMovement::PushBackward(5).as_ang_vec(), Vec3::zero());
}

#[test]
fn nothing_held_queues_nothing() {
    assert_eq!(mapped(&idle()), vec![]);
}

#[test]
fn buttons_map_to_commands_in_order() {
    let mut state = idle();
    state.held.turn_right = true;
    state.held.push_backward = true;
    state.held.push_forward = true;
    state.held.turn_left = true;
    assert_eq!(
        mapped(&state),
        vec![
            CarMovement::PushForward(13 * SCALE),
            CarMovement::PushBackward(13 * SCALE),
            CarMovement::TurnLeft(23 * SCALE),
            CarMovement::TurnRight(23 * SCALE),
        ]
    );
}

#[test]
fn boost_adds_to_the_push_only() {
    let mut state = idle();
    state.held.boost = true;
    assert_eq!(mapped(&state), vec![]);
    state.held.push_forward = true;
    state.held.turn_left = true;
    assert_eq!(
        mapped(&state),
        vec![CarMovement::PushForward(19 * SCALE), CarMovement::TurnLeft(23 * SCALE)]
    );
}

#[test]
fn stick_turns_by_its_deflection() {
    let mut state = idle();
    state.turn_axis_x = -SCALE / 2;
    assert_eq!(mapped(&state), vec![CarMovement::TurnLeft(11_500_000)]);
    state.turn_axis_x = SCALE;
    assert_eq!(mapped(&state), vec![CarMovement::TurnRight(23 * SCALE)]);
}

#[test]
fn stick_dead_zone() {
    let mut state = idle();
    state.turn_axis_x = 10_000;
    assert_eq!(mapped(&state), vec![]);
    state.turn_axis_x = -10_000;
    assert_eq!(mapped(&state), vec![]);
    state.turn_axis_x = 10_001;
    assert_eq!(mapped(&state), vec![CarMovement::TurnRight(230_023)]);
    state.turn_axis_x = -10_001;
    assert_eq!(mapped(&state), vec![CarMovement::TurnLeft(230_023)]);
}

#[test]
fn stick_and_buttons_act_together() {
    let mut state = idle();
    state.held.turn_left = true;
    state.turn_axis_x = SCALE;
    assert_eq!(
        mapped(&state),
        vec![CarMovement::TurnLeft(23 * SCALE), CarMovement::TurnRight(23 * SCALE)]
    );
}

#[test]
fn commands_are_appended_to_what_is_queued() {
    let mut q = CarMovements::new();
    q.push(CarMovement::TurnRight(1));
    let mut t = somewhere();
    let mut state = idle();
    state.held.push_forward = true;
    get_car_movement(&mut q, &mut t, &state);
    assert_eq!(q.drain(), vec![CarMovement::TurnRight(1), CarMovement::PushForward(13 * SCALE)]);
}

#[test]
fn fresh_reset_keeps_only_the_yaw() {
    let mut q = CarMovements::new();
    let mut t = somewhere();
    let mut state = idle();
    state.held.reset = true;
    get_car_movement(&mut q, &mut t, &state);
    assert_eq!(t, somewhere());
    state.fresh.reset = true;
    get_car_movement(&mut q, &mut t, &state);
    assert_eq!(t.rotation, Quat { x: 0, y: 200_000, z: 0, w: 900_000 });
    assert_eq!(t.translation, units(1, 2, 3));
}

#[test]
fn action_state_reports_buttons() {
    let mut state = idle();
    state.held.boost = true;
    state.fresh.play_again = true;
    assert!(state.pressed(CarAction::Boost));
    assert!(!state.just_pressed(CarAction::Boost));
    assert!(state.just_pressed(CarAction::PlayAgain));
    assert!(!state.pressed(CarAction::PlayAgain));
    assert!(!state.pressed(CarAction::TurnAxis));
    assert!(!state.pressed(CarAction::CameraOrbit));
    assert!(!state.pressed(CarAction::PushForward));
    assert!(!state.pressed(CarAction::PushBackward));
    assert!(!state.pressed(CarAction::TurnLeft));
    assert!(!state.pressed(CarAction::TurnRight));
    assert!(!state.pressed(CarAction::Reset));
}
