//! The car's actions and the mapper from the state of the input devices
//! to the commands for one tick.

use vstd::prelude::*;
use crate::fixed::{fixed_mul, mul_fixed, narrow, saturate};
use crate::math::Quat;
use crate::movement::{CarMovement, CarMovements};
use crate::physics::Transform;

verus! {

/// The magnitude of a turn, and of a full deflection of the turn stick.
pub const TURN_FACTOR: i64 = 23_000_000;

/// The magnitude of a push without boost.
pub const PUSH_FACTOR: i64 = 13_000_000;

/// What boost adds to the magnitude of a push.
pub const BOOST_FACTOR: i64 = 6_000_000;

/// The deflection of the turn stick up to which it counts as at rest.
pub const STICK_DEAD_ZONE: i64 = 10_000;

/// What the player can ask of the car.
#[derive(PartialEq, Eq, Clone, Copy, Hash, Debug, Structural)]
pub enum CarAction {
    PushForward,
    PushBackward,
    TurnLeft,
    TurnRight,
    /// The stick that turns the car.
    TurnAxis,
    Boost,
    Reset,
    /// The stick that moves the camera.
    CameraOrbit,
    PlayAgain,
}

/// One flag for each action that is a button.
#[derive(PartialEq, Eq, Clone, Copy, Debug, Structural)]
pub struct Buttons {
    pub push_forward: bool,
    pub push_backward: bool,
    pub turn_left: bool,
    pub turn_right: bool,
    pub boost: bool,
    pub reset: bool,
    pub play_again: bool,
}

impl Buttons {
    /// The flag of `action`. The two sticks are no buttons: their flag is
    /// never set.
    pub open spec fn flag(self, action: CarAction) -> bool {
        match action {
            CarAction::PushForward => self.push_forward,
            CarAction::PushBackward => self.push_backward,
            CarAction::TurnLeft => self.turn_left,
            CarAction::TurnRight => self.turn_right,
            CarAction::Boost => self.boost,
            CarAction::Reset => self.reset,
            CarAction::PlayAgain => self.play_again,
            CarAction::TurnAxis => false,
            CarAction::CameraOrbit => false,
        }
    }

    pub fn get(&self, action: CarAction) -> (b: bool)
        ensures
            b == self.flag(action),
    {
        match action {
            CarAction::PushForward => self.push_forward,
            CarAction::PushBackward => self.push_backward,
            CarAction::TurnLeft => self.turn_left,
            CarAction::TurnRight => self.turn_right,
            CarAction::Boost => self.boost,
            CarAction::Reset => self.reset,
            CarAction::PlayAgain => self.play_again,
            CarAction::TurnAxis => false,
            CarAction::CameraOrbit => false,
        }
    }
}

/// The state of the car's actions in one tick.
#[derive(PartialEq, Eq, Clone, Copy, Debug, Structural)]
pub struct ActionState {
    /// The buttons that are held down.
    pub held: Buttons,
    /// The buttons that went down in this tick.
    pub fresh: Buttons,
    /// The sideways deflection of the turn stick: negative is left,
    /// `SCALE` is fully right.
    pub turn_axis_x: i64,
}

impl ActionState {
    pub fn pressed(&self, action: CarAction) -> (b: bool)
        ensures
            b == self.held.flag(action),
    {
        self.held.get(action)
    }

    pub fn just_pressed(&self, action: CarAction) -> (b: bool)
        ensures
            b == self.fresh.flag(action),
    {
        self.fresh.get(action)
    }
}

/// `commands` with `command` appended if `held`.
pub open spec fn push_if(commands: Seq<CarMovement>, held: bool, command: CarMovement) -> Seq<
    CarMovement,
> {
    if held {
        commands.push(command)
    } else {
        commands
    }
}

/// The magnitude of a push in this state.
pub open spec fn push_factor(state: ActionState) -> i64 {
    if state.held.boost {
        (PUSH_FACTOR + BOOST_FACTOR) as i64
    } else {
        PUSH_FACTOR
    }
}

/// The size of a deflection.
pub open spec fn deflection(x: i64) -> int {
    if x < 0 {
        saturate(-x)
    } else {
        x as int
    }
}

/// The magnitude of the turn that the stick asks for: `TURN_FACTOR` scaled
/// by the deflection.
pub open spec fn stick_force(x: i64) -> i64 {
    saturate(fixed_mul(TURN_FACTOR as int, deflection(x))) as i64
}

/// `commands` followed by what the turn stick asks for: nothing within the
/// dead zone, else a turn to the side of the deflection.
pub open spec fn with_stick(commands: Seq<CarMovement>, x: i64) -> Seq<CarMovement> {
    if deflection(x) > STICK_DEAD_ZONE {
        if x < 0 {
            commands.push(CarMovement::TurnLeft(stick_force(x)))
        } else {
            commands.push(CarMovement::TurnRight(stick_force(x)))
        }
    } else {
        commands
    }
}

/// `commands` followed by what the buttons and the stick ask for: forward,
/// backward, turn left, turn right, then the stick, in this order.
pub open spec fn with_actions(commands: Seq<CarMovement>, state: ActionState) -> Seq<CarMovement> {
    let p = push_factor(state);
    let c1 = push_if(commands, state.held.push_forward, CarMovement::PushForward(p));
    let c2 = push_if(c1, state.held.push_backward, CarMovement::PushBackward(p));
    let c3 = push_if(c2, state.held.turn_left, CarMovement::TurnLeft(TURN_FACTOR));
    let c4 = push_if(c3, state.held.turn_right, CarMovement::TurnRight(TURN_FACTOR));
    with_stick(c4, state.turn_axis_x)
}

/// Queues the commands that the actions ask for. Buttons and stick act
/// together.
///
/// A fresh press of reset keeps only the turn of the car about the
/// vertical axis: the x and z components of its rotation become zero.
pub fn get_car_movement(
    movements: &mut CarMovements,
    transform: &mut Transform,
    action_state: &ActionState,
)
    ensures
        final(movements)@ == with_actions(old(movements)@, *action_state),
        final(transform).translation == old(transform).translation,
        final(transform).rotation == if action_state.fresh.reset {
            Quat { x: 0, y: old(transform).rotation.y, z: 0, w: old(transform).rotation.w }
        } else {
            old(transform).rotation
        },
{
    let current_push_factor: i64 = if action_state.pressed(CarAction::Boost) {
        PUSH_FACTOR + BOOST_FACTOR
    } else {
        PUSH_FACTOR
    };
    if action_state.pressed(CarAction::PushForward) {
        movements.push(CarMovement::PushForward(current_push_factor));
    }
    if action_state.pressed(CarAction::PushBackward) {
        movements.push(CarMovement::PushBackward(current_push_factor));
    }
    if action_state.pressed(CarAction::TurnLeft) {
        movements.push(CarMovement::TurnLeft(TURN_FACTOR));
    }
    if action_state.pressed(CarAction::TurnRight) {
        movements.push(CarMovement::TurnRight(TURN_FACTOR));
    }
    let turn_x: i64 = action_state.turn_axis_x;
    let size: i64 = if turn_x < 0 {
        narrow(-(turn_x as i128))
    } else {
        turn_x
    };
    if size > STICK_DEAD_ZONE {
        let turn_force: i64 = mul_fixed(TURN_FACTOR, size);
        if turn_x < 0 {
            movements.push(CarMovement::TurnLeft(turn_force));
        } else {
            movements.push(CarMovement::TurnRight(turn_force));
        }
    }
    if action_state.just_pressed(CarAction::Reset) {
        let y: i64 = transform.rotation.y;
        let w: i64 = transform.rotation.w;
        transform.rotation = Quat { x: 0, y, z: 0, w };
    }
}

} // verus!
