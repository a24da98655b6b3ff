//! Front-end state coordination for a 2D game: the application state
//! machines, the overlay background that follows them, and the display
//! settings draft that sits between the settings menu and the live window.

use vstd::prelude::*;

pub mod camera;
pub mod coordinator;
pub mod game;
pub mod menus;
pub mod overlay_state;
pub mod state;
pub mod text;
pub mod window;

verus! {

/// The top-level mode of the application.
#[derive(Clone, Copy, Debug, PartialEq, Eq, Hash, Structural)]
pub enum AppState {
    /// Assets are being loaded; the state the application starts in.
    Loading,
    /// The game itself is running.
    InGame,
    /// The main menu is shown and waits for the player.
    MainMenu,
    /// The settings menu, reached from the main menu.
    SettingsMenu,
}

impl crate::state::StateValue for AppState {
    fn same(&self, other: &Self) -> (r: bool) {
        *self == *other
    }
}

impl Default for AppState {
    fn default() -> (state: Self)
        ensures
            state == AppState::Loading,
    {
        AppState::Loading
    }
}

} // verus!
