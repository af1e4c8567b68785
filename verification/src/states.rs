//! The set of screens the session can be in, and the manager that owns the
//! current one. Only the event dispatcher changes the current state.
use vstd::prelude::*;

verus! {

/// One variant per screen. Exactly one is active at a time.
#[derive(Clone, Copy, Debug, PartialEq, Eq, Structural)]
pub enum StateType {
    /// Title menu: new game, load game, exit.
    MainMenu,
    /// Typing the player name for a new game.
    Name,
    /// Confirming the typed name before the world is loaded.
    NameConfirm,
    /// Playing: the town view with the main action menu.
    Game,
    /// Acknowledging a successful save.
    GameSaveSuccess,
    /// Acknowledging a failed save.
    GameSaveError,
    /// Acknowledging a failed load.
    GameLoadError,
    /// Acknowledging a failed world initialisation.
    GameInitError,
    /// Confirming a quit back to the main menu.
    GameQuit,
    /// Viewing the in-game clock.
    Time,
    /// Viewing the current weather.
    Weather,
    /// Choosing a travel destination.
    Travel,
}

/// Holder of the active screen.
pub struct StateManager {
    pub current_state: StateType,
}

impl StateManager {
    /// A fresh session starts at the main menu.
    pub fn new() -> (r: Self)
        ensures
            r.current_state == StateType::MainMenu,
    {
        Self { current_state: StateType::MainMenu }
    }
}

} // verus!
