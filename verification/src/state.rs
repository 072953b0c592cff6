//! The two state machines the game runs on: which screen is shown, and
//! whether the simulation on the game screen is running or paused.

use vstd::prelude::*;

verus! {

/// Which screen the application shows.
#[derive(Clone, Copy, Debug, PartialEq, Eq, Structural)]
pub enum AppState {
    MainMenu,
    Game,
    GameOver,
}

impl Default for AppState {
    /// The application opens on the main menu.
    fn default() -> (s: Self)
        ensures
            s == AppState::MainMenu,
    {
        AppState::MainMenu
    }
}

/// Whether the simulation on the game screen advances or stands still.
#[derive(Clone, Copy, Debug, PartialEq, Eq, Structural)]
pub enum SimulationState {
    Running,
    Paused,
}

impl Default for SimulationState {
    /// The simulation starts paused and is resumed on entering the game
    /// screen.
    fn default() -> (s: Self)
        ensures
            s == SimulationState::Paused,
    {
        SimulationState::Paused
    }
}

/// The other of the two simulation states.
pub open spec fn toggled(s: SimulationState) -> SimulationState {
    match s {
        SimulationState::Running => SimulationState::Paused,
        SimulationState::Paused => SimulationState::Running,
    }
}

/// Toggling the pause state twice returns to the state toggled from.
pub proof fn lemma_toggled_involutive(s: SimulationState)
    ensures
        toggled(toggled(s)) == s,
{
}

/// The state the simulation is sent to when the game screen is left or
/// interrupted.
pub fn pause_simulation() -> (s: SimulationState)
    ensures
        s == SimulationState::Paused,
{
    SimulationState::Paused
}

/// The state the simulation is sent to when the game screen is entered.
pub fn resume_simulation() -> (s: SimulationState)
    ensures
        s == SimulationState::Running,
{
    SimulationState::Running
}

/// Decides the simulation state to queue when the pause key is handled:
/// the key just pressed flips the state; otherwise nothing is queued.
pub fn toggle_simulation(pause_key_just_pressed: bool, current: SimulationState) -> (next: Option<
    SimulationState,
>)
    ensures
        next == if pause_key_just_pressed {
            Some(toggled(current))
        } else {
            None::<SimulationState>
        },
{
    if pause_key_just_pressed {
        if current == SimulationState::Running {
            Some(SimulationState::Paused)
        } else {
            Some(SimulationState::Running)
        }
    } else {
        None
    }
}

/// Decides the screen to queue when the game key is handled: the key just
/// pressed switches to the game screen unless it is already shown.
pub fn transition_to_game_state(game_key_just_pressed: bool, current: AppState) -> (next: Option<
    AppState,
>)
    ensures
        next == if game_key_just_pressed && current != AppState::Game {
            Some(AppState::Game)
        } else {
            None::<AppState>
        },
{
    if game_key_just_pressed && current != AppState::Game {
        Some(AppState::Game)
    } else {
        None
    }
}

/// Decides the screen to queue when the menu key is handled: the key just
/// pressed switches to the main menu unless it is already shown.
pub fn transition_to_main_menu_state(menu_key_just_pressed: bool, current: AppState) -> (next:
    Option<AppState>)
    ensures
        next == if menu_key_just_pressed && current != AppState::MainMenu {
            Some(AppState::MainMenu)
        } else {
            None::<AppState>
        },
{
    if menu_key_just_pressed && current != AppState::MainMenu {
        Some(AppState::MainMenu)
    } else {
        None
    }
}

} // verus!
