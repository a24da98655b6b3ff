//! The overlay shown over the running game, and the darkened background
//! that follows it.

use crate::state::{StateStore, StateValue};
use crate::AppState;
use vstd::prelude::*;

verus! {

/// The menu shown over the running game. It has a meaning only while the
/// application is in the game.
#[derive(Clone, Copy, Debug, PartialEq, Eq, Hash, Structural)]
pub enum GameOverlayState {
    /// No overlay: the game is in view.
    Closed,
    /// The game menu.
    GameMenu,
    /// The settings menu, reached from the game menu.
    SettingsMenu,
}

impl Default for GameOverlayState {
    fn default() -> (state: Self)
        ensures
            state == GameOverlayState::Closed,
    {
        GameOverlayState::Closed
    }
}

impl StateValue for GameOverlayState {
    fn same(&self, other: &Self) -> (r: bool) {
        *self == *other
    }
}

/// Whether the game is dimmed behind an overlay. It is never asked for: it
/// follows the application state and the overlay.
#[derive(Clone, Copy, Debug, PartialEq, Eq, Hash, Structural)]
pub enum OverlayBackgroundState {
    /// The game is shown as it is.
    Clear,
    /// The game is dimmed.
    Darkened,
}

impl Default for OverlayBackgroundState {
    fn default() -> (state: Self)
        ensures
            state == OverlayBackgroundState::Clear,
    {
        OverlayBackgroundState::Clear
    }
}

impl StateValue for OverlayBackgroundState {
    fn same(&self, other: &Self) -> (r: bool) {
        *self == *other
    }
}

/// The visual that dims the game: a black sheet over the whole screen,
/// behind the menus.
#[derive(Clone, Copy, Debug, PartialEq, Eq, Hash, Structural)]
pub struct OverlayBackground {
    /// Width in percent of the screen.
    pub width_percent: u32,
    /// Height in percent of the screen.
    pub height_percent: u32,
    /// Opacity of the black, in percent.
    pub opacity_percent: u32,
    /// Drawing order among the interface's roots.
    pub z_index: i32,
}

impl OverlayBackground {
    /// The sheet: all of the screen, nearly opaque, one layer down.
    pub open spec fn spec_sheet() -> OverlayBackground {
        OverlayBackground {
            width_percent: 100,
            height_percent: 100,
            opacity_percent: 95,
            z_index: -1i32,
        }
    }

    /// The sheet.
    pub fn sheet() -> (visual: OverlayBackground)
        ensures
            visual == OverlayBackground::spec_sheet(),
    {
        OverlayBackground {
            width_percent: 100,
            height_percent: 100,
            opacity_percent: 95,
            z_index: -1,
        }
    }
}

/// The overlay that can be open in `app`: the one asked for in the game,
/// none anywhere else.
pub open spec fn settled_overlay(app: AppState, overlay: GameOverlayState) -> GameOverlayState {
    if app == AppState::InGame {
        overlay
    } else {
        GameOverlayState::Closed
    }
}

/// The background that belongs to an overlay in the game.
pub open spec fn background_for(overlay: GameOverlayState) -> OverlayBackgroundState {
    if overlay == GameOverlayState::Closed {
        OverlayBackgroundState::Clear
    } else {
        OverlayBackgroundState::Darkened
    }
}

/// The background that belongs to `app` and `overlay`: darkened in the game
/// under an open overlay, clear otherwise.
pub open spec fn derived_background(
    app: AppState,
    overlay: GameOverlayState,
) -> OverlayBackgroundState {
    if app == AppState::InGame {
        background_for(overlay)
    } else {
        OverlayBackgroundState::Clear
    }
}

/// The background that belongs to `app` and `overlay`. It is darkened if and
/// only if the application is in the game and an overlay is open.
pub fn derive_background(app: AppState, overlay: GameOverlayState) -> (background:
    OverlayBackgroundState)
    ensures
        background == derived_background(app, overlay),
        background == OverlayBackgroundState::Darkened <==> (app == AppState::InGame && overlay
            != GameOverlayState::Closed),
{
    match app {
        AppState::InGame => match overlay {
            GameOverlayState::Closed => OverlayBackgroundState::Clear,
            _ => OverlayBackgroundState::Darkened,
        },
        _ => OverlayBackgroundState::Clear,
    }
}

/// The step that runs at every tick in the game: stages the background that
/// belongs to the overlay.
pub fn update_overlay_background_state(
    overlay_state: GameOverlayState,
    next_background_state: &mut StateStore<OverlayBackgroundState>,
)
    ensures
        final(next_background_state)@ == old(next_background_state)@.request(
            background_for(overlay_state),
        ),
{
    match overlay_state {
        GameOverlayState::Closed => {
            next_background_state.request_transition(OverlayBackgroundState::Clear);
        },
        _ => {
            next_background_state.request_transition(OverlayBackgroundState::Darkened);
        },
    }
}

/// The step that runs when the application leaves the game: stages a clear
/// background, whatever the overlay is.
pub fn reset_overlay_background_state(
    next_background_state: &mut StateStore<OverlayBackgroundState>,
)
    ensures
        final(next_background_state)@ == old(next_background_state)@.request(
            OverlayBackgroundState::Clear,
        ),
{
    next_background_state.request_transition(OverlayBackgroundState::Clear);
}

/// Puts one sheet on screen, when the background becomes darkened.
pub fn spawn_overlay_background(backgrounds: &mut Vec<OverlayBackground>)
    ensures
        final(backgrounds)@ == old(backgrounds)@.push(OverlayBackground::spec_sheet()),
{
    backgrounds.push(OverlayBackground::sheet());
}

/// Takes every sheet off screen, when the background stops being darkened.
pub fn cleanup_overlay_background(backgrounds: &mut Vec<OverlayBackground>)
    ensures
        final(backgrounds)@ == Seq::<OverlayBackground>::empty(),
{
    backgrounds.clear();
}

} // verus!
