//! The game menu, the overlay that pauses the game: resume, settings, quit
//! to the main menu, quit to the system.

use crate::menus::ui_components::{
    handle_button_hover,
    hover_shade,
    ButtonShade,
    Interaction,
    MenuButton,
};
use crate::overlay_state::GameOverlayState;
use crate::state::StateStore;
use crate::AppState;
use vstd::prelude::*;
use vstd::string::StringExecFns;

verus! {

/// The buttons of the game menu.
#[derive(Clone, Copy, Debug, PartialEq, Eq, Hash, Structural)]
pub enum GameMenuButton {
    /// Closes the overlay.
    Resume,
    /// Opens the settings menu over the game.
    Settings,
    /// Leaves the game for the main menu.
    Quit,
    /// Leaves the application.
    QuitToOs,
}

/// The game menu as it is put on screen.
#[derive(Debug)]
pub struct GameMenu {
    /// The heading.
    pub title: String,
    /// The button that closes the overlay.
    pub resume: MenuButton,
    /// The button that opens the settings.
    pub settings: MenuButton,
    /// The button that leaves for the main menu.
    pub quit: MenuButton,
    /// The button that leaves the application.
    pub quit_to_os: MenuButton,
}

impl GameMenu {
    /// Whether the menu is the one that opening the game menu puts on
    /// screen: heading and four buttons, all at rest.
    pub open spec fn is_fresh(self) -> bool {
        &&& self.title@ == "Game Menu"@
        &&& self.resume.is_fresh("Resume"@)
        &&& self.settings.is_fresh("Settings"@)
        &&& self.quit.is_fresh("Quit to Menu"@)
        &&& self.quit_to_os.is_fresh("Quit to OS"@)
    }
}

impl GameMenu {
    /// The menu after the pointer has met `button`: that button is
    /// recoloured as a plain button is, nothing else changes.
    pub open spec fn hovered(self, button: GameMenuButton, interaction: Interaction) -> GameMenu {
        match button {
            GameMenuButton::Resume => GameMenu {
                resume: self.resume.shaded(hover_shade(interaction, self.resume.shade)),
                ..self
            },
            GameMenuButton::Settings => GameMenu {
                settings: self.settings.shaded(hover_shade(interaction, self.settings.shade)),
                ..self
            },
            GameMenuButton::Quit => GameMenu {
                quit: self.quit.shaded(hover_shade(interaction, self.quit.shade)),
                ..self
            },
            GameMenuButton::QuitToOs => GameMenu {
                quit_to_os: self.quit_to_os.shaded(hover_shade(interaction, self.quit_to_os.shade)),
                ..self
            },
        }
    }

    /// The shade that `button` shows.
    pub open spec fn spec_shade_of(self, button: GameMenuButton) -> ButtonShade {
        match button {
            GameMenuButton::Resume => self.resume.shade,
            GameMenuButton::Settings => self.settings.shade,
            GameMenuButton::Quit => self.quit.shade,
            GameMenuButton::QuitToOs => self.quit_to_os.shade,
        }
    }

    /// The shade that `button` shows.
    pub fn shade_of(&self, button: GameMenuButton) -> (shade: ButtonShade)
        ensures
            shade == self.spec_shade_of(button),
    {
        match button {
            GameMenuButton::Resume => self.resume.shade,
            GameMenuButton::Settings => self.settings.shade,
            GameMenuButton::Quit => self.quit.shade,
            GameMenuButton::QuitToOs => self.quit_to_os.shade,
        }
    }

    /// Recolours `button` for a changed interaction.
    pub fn hover(&mut self, button: GameMenuButton, interaction: Interaction)
        ensures
            *final(self) == old(self).hovered(button, interaction),
    {
        match button {
            GameMenuButton::Resume => handle_button_hover(interaction, &mut self.resume.shade),
            GameMenuButton::Settings => handle_button_hover(interaction, &mut self.settings.shade),
            GameMenuButton::Quit => handle_button_hover(interaction, &mut self.quit.shade),
            GameMenuButton::QuitToOs => handle_button_hover(
                interaction,
                &mut self.quit_to_os.shade,
            ),
        }
    }
}

/// The game menu as opening it puts it on screen.
pub fn setup_game_menu() -> (menu: GameMenu)
    ensures
        menu.is_fresh(),
{
    GameMenu {
        title: String::from_str("Game Menu"),
        resume: MenuButton::new(String::from_str("Resume")),
        settings: MenuButton::new(String::from_str("Settings")),
        quit: MenuButton::new(String::from_str("Quit to Menu")),
        quit_to_os: MenuButton::new(String::from_str("Quit to OS")),
    }
}

/// Pressing resume asks for the overlay to close.
pub fn handle_resume_button(
    interaction: Interaction,
    next_overlay_state: &mut StateStore<GameOverlayState>,
)
    ensures
        final(next_overlay_state)@ == if interaction == Interaction::Pressed {
            old(next_overlay_state)@.request(GameOverlayState::Closed)
        } else {
            old(next_overlay_state)@
        },
{
    if interaction == Interaction::Pressed {
        next_overlay_state.request_transition(GameOverlayState::Closed);
    }
}

/// Pressing settings asks for the settings menu over the game.
pub fn handle_settings_button(
    interaction: Interaction,
    next_overlay_state: &mut StateStore<GameOverlayState>,
)
    ensures
        final(next_overlay_state)@ == if interaction == Interaction::Pressed {
            old(next_overlay_state)@.request(GameOverlayState::SettingsMenu)
        } else {
            old(next_overlay_state)@
        },
{
    if interaction == Interaction::Pressed {
        next_overlay_state.request_transition(GameOverlayState::SettingsMenu);
    }
}

/// Pressing quit asks for two things at once: the overlay closes and the
/// application goes to the main menu. Both are staged in this one call, so
/// that they take effect at the same observation point.
pub fn handle_quit_button(
    interaction: Interaction,
    next_state: &mut StateStore<AppState>,
    next_overlay_state: &mut StateStore<GameOverlayState>,
)
    ensures
        final(next_state)@ == if interaction == Interaction::Pressed {
            old(next_state)@.request(AppState::MainMenu)
        } else {
            old(next_state)@
        },
        final(next_overlay_state)@ == if interaction == Interaction::Pressed {
            old(next_overlay_state)@.request(GameOverlayState::Closed)
        } else {
            old(next_overlay_state)@
        },
{
    if interaction == Interaction::Pressed {
        next_overlay_state.request_transition(GameOverlayState::Closed);
        next_state.request_transition(AppState::MainMenu);
    }
}

/// Pressing quit to the system asks for the application to end. No state
/// changes.
pub fn handle_quit_to_os_button(interaction: Interaction, exit_requested: &mut bool)
    ensures
        *final(exit_requested) == (*old(exit_requested) || interaction == Interaction::Pressed),
{
    if interaction == Interaction::Pressed {
        *exit_requested = true;
    }
}

} // verus!
