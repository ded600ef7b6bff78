//! The phases of the game and the events that move it between them.

use vstd::prelude::*;

verus! {

/// The phase the game is in.
#[derive(Debug, Clone, Copy, Eq, PartialEq, Hash, Structural)]
pub enum GameState {
    LoadingAssets,
    Setup,
    Running,
    GameOver,
}

/// What can move the game to another phase.
#[derive(Debug, Clone, Copy, Eq, PartialEq, Hash, Structural)]
pub enum GameEvent {
    /// Every asset has been loaded.
    AssetsLoaded,
    /// The scene has been set up.
    SetupComplete,
    /// The run has ended: the vehicle is stuck or has left the level.
    Terminated,
    /// The player asked for another run.
    PlayAgain,
}

impl GameState {
    /// The phase that follows `self` on `event`. An event that does not
    /// belong to the current phase changes nothing.
    pub open spec fn after(self, event: GameEvent) -> GameState {
        match (self, event) {
            (GameState::LoadingAssets, GameEvent::AssetsLoaded) => GameState::Setup,
            (GameState::Setup, GameEvent::SetupComplete) => GameState::Running,
            (GameState::Running, GameEvent::Terminated) => GameState::GameOver,
            (GameState::GameOver, GameEvent::PlayAgain) => GameState::Running,
            _ => self,
        }
    }

    pub fn on_event(self, event: GameEvent) -> (next: GameState)
        ensures
            next == self.after(event),
    {
        match (self, event) {
            (GameState::LoadingAssets, GameEvent::AssetsLoaded) => GameState::Setup,
            (GameState::Setup, GameEvent::SetupComplete) => GameState::Running,
            (GameState::Running, GameEvent::Terminated) => GameState::GameOver,
            (GameState::GameOver, GameEvent::PlayAgain) => GameState::Running,
            _ => self,
        }
    }

    /// Whether the vehicle is driven and watched in this phase.
    pub fn is_running(self) -> (b: bool)
        ensures
            b == (self == GameState::Running),
    {
        match self {
            GameState::Running => true,
            _ => false,
        }
    }
}

/// A run that ends and is started again is running again.
pub proof fn lemma_retry_runs_again()
    ensures
        GameState::Running.after(GameEvent::Terminated) == GameState::GameOver,
        GameState::Running.after(GameEvent::Terminated).after(GameEvent::PlayAgain)
            == GameState::Running,
{
}

} // verus!
