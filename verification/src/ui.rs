//! The two buttons of the game, "drive" and "play again": what the
//! pointer and the gamepad do to them, and what a retry does to the car
//! and the camera.

use vstd::prelude::*;
use crate::camera::{camera_offset, start_view, LookTransform};
use crate::car::{
    reset_car_on_exit_game_over, start_position, StuckTimer, Timer, RESET_GRACE_PERIOD,
};
use crate::input::{ActionState, CarAction};
use crate::math::{Quat, Vector};
use crate::physics::{Transform, Velocity};
use crate::state::GameState;

verus! {

/// What the pointer does to a button.
#[derive(Clone, Copy, Debug, PartialEq, Eq, Structural)]
pub enum Interaction {
    Pressed,
    Hovered,
    /// The pointer is elsewhere.
    Idle,
}

/// How a button's label is shown.
#[derive(Clone, Copy, Debug, PartialEq, Eq, Structural)]
pub enum Tone {
    Plain,
    Highlighted,
}

/// What follows from a change of a button's interaction.
#[derive(Clone, Copy, Debug, PartialEq, Eq, Structural)]
pub enum Response {
    /// Show the label in this tone.
    Show(Tone),
    /// Go to this phase.
    Enter(GameState),
}

/// What a change of interaction does to either button: a press starts a
/// run, the pointer above the button highlights its label, and the pointer
/// leaving it shows the label plain again.
pub open spec fn response_to(interaction: Interaction) -> Response {
    match interaction {
        Interaction::Pressed => Response::Enter(GameState::Running),
        Interaction::Hovered => Response::Show(Tone::Highlighted),
        Interaction::Idle => Response::Show(Tone::Plain),
    }
}

/// Whether car, timer and camera are as at the start of a run: the car
/// upright and at rest at its start position, the stuck duration zero, the
/// whole grace period ahead, and the camera behind and above the car,
/// looking at it.
pub open spec fn at_start(
    transform: Transform,
    velocity: Velocity,
    timer: Timer,
    look: LookTransform,
) -> bool {
    &&& transform.translation@ == start_position()
    &&& transform.rotation == Quat::spec_identity()
    &&& velocity.linvel@ == Vector::zero()
    &&& velocity.angvel@ == Vector::zero()
    &&& timer == (Timer { stuck_duration: 0, reset_grace_period: RESET_GRACE_PERIOD as nat })
    &&& look.eye@ == start_position().plus(camera_offset())
    &&& look.target@ == start_position()
}

/// What a change of interaction does to a button, where there is nothing
/// to put back at the start.
pub fn respond(interaction: Interaction) -> (response: Response)
    ensures
        response == response_to(interaction),
{
    match interaction {
        Interaction::Pressed => Response::Enter(GameState::Running),
        Interaction::Hovered => Response::Show(Tone::Highlighted),
        Interaction::Idle => Response::Show(Tone::Plain),
    }
}

pub fn handle_drive_button(interaction: Interaction) -> (response: Response)
    ensures
        response == response_to(interaction),
{
    respond(interaction)
}

/// Puts the car and the camera back at the start for another run.
pub fn restart(
    transform: &mut Transform,
    velocity: &mut Velocity,
    stuck_timer: &mut StuckTimer,
    look_transform: &mut LookTransform,
)
    ensures
        at_start(
            *final(transform),
            *final(velocity),
            final(stuck_timer)@,
            *final(look_transform),
        ),
{
    reset_car_on_exit_game_over(transform, velocity, stuck_timer);
    *look_transform = start_view();
}

/// Handles a change of the play-again button's interaction.
///
/// A press asks for `Running` and puts the car, its stuck timer and the
/// camera back at the start. The pointer coming or going only changes the
/// tone of the label: car, timer and camera stay as they are.
pub fn handle_play_again_button(
    interaction: Interaction,
    transform: &mut Transform,
    velocity: &mut Velocity,
    stuck_timer: &mut StuckTimer,
    look_transform: &mut LookTransform,
) -> (response: Response)
    ensures
        response == response_to(interaction),
        interaction == Interaction::Pressed ==> at_start(
            *final(transform),
            *final(velocity),
            final(stuck_timer)@,
            *final(look_transform),
        ),
        interaction != Interaction::Pressed ==> {
            &&& *final(transform) == *old(transform)
            &&& *final(velocity) == *old(velocity)
            &&& final(stuck_timer)@ == old(stuck_timer)@
            &&& *final(look_transform) == *old(look_transform)
        },
{
    match interaction {
        Interaction::Pressed => {
            restart(transform, velocity, stuck_timer, look_transform);
            Response::Enter(GameState::Running)
        },
        Interaction::Hovered => Response::Show(Tone::Highlighted),
        Interaction::Idle => Response::Show(Tone::Plain),
    }
}

/// The gamepad's way to start the first run: a fresh press of the
/// play-again action.
pub fn handle_gamepad_drive_button(action_state: &ActionState) -> (next: Option<GameState>)
    ensures
        next == if action_state.fresh.play_again {
            Some(GameState::Running)
        } else {
            None
        },
{
    if action_state.just_pressed(CarAction::PlayAgain) {
        Some(GameState::Running)
    } else {
        None
    }
}

/// The gamepad's way to start another run.
///
/// A fresh press of the play-again action asks for `Running` and puts the
/// car, its stuck timer and the camera back at the start. Without one,
/// nothing changes.
pub fn handle_gamepad_play_again(
    action_state: &ActionState,
    transform: &mut Transform,
    velocity: &mut Velocity,
    stuck_timer: &mut StuckTimer,
    look_transform: &mut LookTransform,
) -> (next: Option<GameState>)
    ensures
        action_state.fresh.play_again ==> {
            &&& next == Some(GameState::Running)
            &&& at_start(
                *final(transform),
                *final(velocity),
                final(stuck_timer)@,
                *final(look_transform),
            )
        },
        !action_state.fresh.play_again ==> {
            &&& next.is_none()
            &&& *final(transform) == *old(transform)
            &&& *final(velocity) == *old(velocity)
            &&& final(stuck_timer)@ == old(stuck_timer)@
            &&& *final(look_transform) == *old(look_transform)
        },
{
    if action_state.just_pressed(CarAction::PlayAgain) {
        restart(transform, velocity, stuck_timer, look_transform);
        Some(GameState::Running)
    } else {
        None
    }
}

/// A retry after the run has ended: the game is running again, the stuck
/// duration is zero, and the stuck check stays off until the grace period
/// has run out.
pub proof fn lemma_retry_is_a_fresh_start(
    transform: Transform,
    velocity: Velocity,
    timer: Timer,
    look: LookTransform,
)
    requires
        at_start(transform, velocity, timer, look),
    ensures
        GameState::GameOver.after(crate::state::GameEvent::PlayAgain) == GameState::Running,
        timer.stuck_duration == 0,
        timer.reset_grace_period > 0,
        timer.phase() == crate::car::Phase::Normal,
{
}

} // verus!
