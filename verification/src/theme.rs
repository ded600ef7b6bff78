//! The theme music: what the player's toggle does to the playback.

use vstd::prelude::*;

verus! {

/// What is known of the theme's playback.
#[derive(Clone, Copy, Debug, PartialEq, Eq, Structural)]
pub struct ThemeState {
    /// Whether a playback has ever been started.
    pub has_instance: bool,
    pub is_playing: bool,
}

/// What to do with the playback.
#[derive(Clone, Copy, Debug, PartialEq, Eq, Structural)]
pub enum Playback {
    /// Leave it as it is.
    Keep,
    /// Start a new looped playback and remember it.
    Start,
    /// Pause the playback at hand.
    Pause,
    /// Resume the playback at hand.
    Resume,
}

/// The state before anything has been played.
pub fn load() -> (state: ThemeState)
    ensures
        state == (ThemeState { has_instance: false, is_playing: false }),
{
    ThemeState { has_instance: false, is_playing: false }
}

/// Starts the theme unless a playback was started before.
pub fn play(audio_state: &mut ThemeState) -> (playback: Playback)
    ensures
        old(audio_state).has_instance ==> playback == Playback::Keep && *final(audio_state) == *old(
            audio_state,
        ),
        !old(audio_state).has_instance ==> playback == Playback::Start && *final(audio_state) == (
        ThemeState { has_instance: true, is_playing: true }),
{
    if !audio_state.has_instance {
        audio_state.has_instance = true;
        audio_state.is_playing = true;
        Playback::Start
    } else {
        Playback::Keep
    }
}

/// What a press of the toggle does in `state`, when `instance_found` says
/// whether the remembered playback still exists.
pub open spec fn toggled(state: ThemeState, instance_found: bool) -> (Playback, ThemeState) {
    if state.is_playing {
        if state.has_instance && instance_found {
            (Playback::Pause, ThemeState { has_instance: true, is_playing: false })
        } else {
            (Playback::Keep, state)
        }
    } else if state.has_instance && instance_found {
        (Playback::Resume, ThemeState { has_instance: true, is_playing: true })
    } else {
        (Playback::Start, ThemeState { has_instance: true, is_playing: true })
    }
}

/// Handles one press of the music toggle.
///
/// Playing music is paused, if its playback can be found. Silent music is
/// resumed, or started anew if there is no playback to resume.
pub fn handle_music_toggle(audio_state: &mut ThemeState, instance_found: bool) -> (playback:
    Playback)
    ensures
        (playback, *final(audio_state)) == toggled(*old(audio_state), instance_found),
{
    if audio_state.is_playing {
        if audio_state.has_instance && instance_found {
            audio_state.is_playing = false;
            Playback::Pause
        } else {
            Playback::Keep
        }
    } else if audio_state.has_instance && instance_found {
        audio_state.is_playing = true;
        Playback::Resume
    } else {
        audio_state.has_instance = true;
        audio_state.is_playing = true;
        Playback::Start
    }
}

/// Whether the toggle's label is shown bright: while the music plays.
pub fn label_is_bright(audio_state: &ThemeState) -> (bright: bool)
    ensures
        bright == audio_state.is_playing,
{
    audio_state.is_playing
}

/// Two presses of the toggle, with the playback at hand, leave the music
/// as it was: playing or silent.
pub proof fn lemma_toggle_twice(state: ThemeState)
    requires
        state.has_instance,
    ensures
        toggled(toggled(state, true).1, true).1 == state,
        toggled(state, true).1.is_playing == !state.is_playing,
{
}

} // verus!
