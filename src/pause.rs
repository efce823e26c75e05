//! Whether the game runs or waits in its pause menu, and the menu's
//! choices.
use vstd::prelude::*;

verus! {

/// The two states of play.
#[derive(Clone, Copy, Debug, PartialEq, Eq, Structural)]
pub enum GameState {
    Playing,
    Paused,
}

/// A request to start the round over.
#[derive(Clone, Copy, Debug, PartialEq, Eq, Structural)]
pub struct RestartGameEvent;

/// The state after a frame of play: the pause request pauses a running game.
pub fn handle_pause_input(state: GameState, pause: bool) -> (next: GameState)
    ensures
        next == (if state == GameState::Playing && pause {
            GameState::Paused
        } else {
            state
        }),
{
    if state == GameState::Playing && pause {
        GameState::Paused
    } else {
        state
    }
}

/// What the pause menu decided.
#[derive(Clone, Copy, Debug, PartialEq, Eq, Structural)]
pub struct MenuOutcome {
    pub state: GameState,
    pub restart: bool,
    pub quit: bool,
}

/// The pause menu's choice, the first key pressed winning: restart (and
/// play on), resume, or quit. Outside the pause menu, or with no key,
/// nothing happens.
pub fn handle_pause_menu_input(state: GameState, restart: bool, resume: bool, quit: bool) -> (o: MenuOutcome)
    ensures
        state != GameState::Paused ==> o == (MenuOutcome { state, restart: false, quit: false }),
        state == GameState::Paused ==> o == (if restart {
            MenuOutcome { state: GameState::Playing, restart: true, quit: false }
        } else if resume {
            MenuOutcome { state: GameState::Playing, restart: false, quit: false }
        } else if quit {
            MenuOutcome { state, restart: false, quit: true }
        } else {
            MenuOutcome { state, restart: false, quit: false }
        }),
{
    if state != GameState::Paused {
        return MenuOutcome { state, restart: false, quit: false };
    }
    if restart {
        MenuOutcome { state: GameState::Playing, restart: true, quit: false }
    } else if resume {
        MenuOutcome { state: GameState::Playing, restart: false, quit: false }
    } else if quit {
        MenuOutcome { state, restart: false, quit: true }
    } else {
        MenuOutcome { state, restart: false, quit: false }
    }
}

} // verus!
