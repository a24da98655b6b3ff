//! The main menu: play, settings, quit, and two links in the footer.

use crate::menus::ui_components::{
    handle_button_hover,
    hover_shade,
    ButtonShade,
    Interaction,
    MenuButton,
};
use crate::state::StateStore;
use crate::AppState;
use vstd::prelude::*;
use vstd::string::StringExecFns;

verus! {

/// The buttons of the main menu.
#[derive(Clone, Copy, Debug, PartialEq, Eq, Hash, Structural)]
pub enum MainMenuButton {
    /// Starts the game.
    Play,
    /// Opens the settings menu.
    Settings,
    /// Leaves the application.
    Quit,
    /// The footer link to the engine's page.
    EngineLink,
    /// The footer link to the sources.
    SourceLink,
}

/// A footer button that opens a page in the browser.
#[derive(Debug)]
pub struct OpenLink {
    /// The text beside the icon.
    pub label: String,
    /// The address that pressing the button opens.
    pub url: String,
    /// Which of its colours the button shows.
    pub shade: ButtonShade,
}

impl OpenLink {
    /// Whether the link says `label`, leads to `url` and is at rest.
    pub open spec fn is_fresh(self, label: Seq<char>, url: Seq<char>) -> bool {
        self.label@ == label && self.url@ == url && self.shade == ButtonShade::Normal
    }

    /// The link with `shade` in place of the shade it shows.
    pub open spec fn shaded(self, shade: ButtonShade) -> OpenLink {
        OpenLink { shade, ..self }
    }
}

/// The main menu as it is put on screen.
#[derive(Debug)]
pub struct MainMenu {
    /// The heading.
    pub title: String,
    /// The button that starts the game.
    pub play: MenuButton,
    /// The button that opens the settings.
    pub settings: MenuButton,
    /// The button that leaves the application.
    pub quit: MenuButton,
    /// The footer link to the engine's page.
    pub engine_link: OpenLink,
    /// The footer link to the sources.
    pub source_link: OpenLink,
}

impl MainMenu {
    /// Whether the menu is the one that entering the main menu puts on
    /// screen: heading, three buttons and two links, all at rest.
    pub open spec fn is_fresh(self) -> bool {
        &&& self.title@ == "Untitled Game"@
        &&& self.play.is_fresh("Play"@)
        &&& self.settings.is_fresh("Settings"@)
        &&& self.quit.is_fresh("Quit"@)
        &&& self.engine_link.is_fresh("Made with Bevy"@, "https://bevyengine.org"@)
        &&& self.source_link.is_fresh(
            "Open source"@,
            "https://github.com/NiklasEi/bevy_game_template"@,
        )
    }
}

impl MainMenu {
    /// The menu after the pointer has met `button`: that button is
    /// recoloured as a plain button is, nothing else changes.
    pub open spec fn hovered(self, button: MainMenuButton, interaction: Interaction) -> MainMenu {
        match button {
            MainMenuButton::Play => MainMenu {
                play: self.play.shaded(hover_shade(interaction, self.play.shade)),
                ..self
            },
            MainMenuButton::Settings => MainMenu {
                settings: self.settings.shaded(hover_shade(interaction, self.settings.shade)),
                ..self
            },
            MainMenuButton::Quit => MainMenu {
                quit: self.quit.shaded(hover_shade(interaction, self.quit.shade)),
                ..self
            },
            MainMenuButton::EngineLink => MainMenu {
                engine_link: self.engine_link.shaded(
                    hover_shade(interaction, self.engine_link.shade),
                ),
                ..self
            },
            MainMenuButton::SourceLink => MainMenu {
                source_link: self.source_link.shaded(
                    hover_shade(interaction, self.source_link.shade),
                ),
                ..self
            },
        }
    }

    /// The address behind `button`, if it is one of the footer links.
    pub open spec fn link_of(self, button: MainMenuButton) -> Option<Seq<char>> {
        match button {
            MainMenuButton::EngineLink => Some(self.engine_link.url@),
            MainMenuButton::SourceLink => Some(self.source_link.url@),
            _ => None,
        }
    }

    /// The shade that `button` shows.
    pub open spec fn spec_shade_of(self, button: MainMenuButton) -> ButtonShade {
        match button {
            MainMenuButton::Play => self.play.shade,
            MainMenuButton::Settings => self.settings.shade,
            MainMenuButton::Quit => self.quit.shade,
            MainMenuButton::EngineLink => self.engine_link.shade,
            MainMenuButton::SourceLink => self.source_link.shade,
        }
    }

    /// The shade that `button` shows.
    pub fn shade_of(&self, button: MainMenuButton) -> (shade: ButtonShade)
        ensures
            shade == self.spec_shade_of(button),
    {
        match button {
            MainMenuButton::Play => self.play.shade,
            MainMenuButton::Settings => self.settings.shade,
            MainMenuButton::Quit => self.quit.shade,
            MainMenuButton::EngineLink => self.engine_link.shade,
            MainMenuButton::SourceLink => self.source_link.shade,
        }
    }

    /// Recolours `button` for a changed interaction.
    pub fn hover(&mut self, button: MainMenuButton, interaction: Interaction)
        ensures
            *final(self) == old(self).hovered(button, interaction),
    {
        match button {
            MainMenuButton::Play => handle_button_hover(interaction, &mut self.play.shade),
            MainMenuButton::Settings => handle_button_hover(interaction, &mut self.settings.shade),
            MainMenuButton::Quit => handle_button_hover(interaction, &mut self.quit.shade),
            MainMenuButton::EngineLink => handle_button_hover(
                interaction,
                &mut self.engine_link.shade,
            ),
            MainMenuButton::SourceLink => handle_button_hover(
                interaction,
                &mut self.source_link.shade,
            ),
        }
    }
}

/// The main menu as entering it puts it on screen.
pub fn setup_main_menu() -> (menu: MainMenu)
    ensures
        menu.is_fresh(),
{
    MainMenu {
        title: String::from_str("Untitled Game"),
        play: MenuButton::new(String::from_str("Play")),
        settings: MenuButton::new(String::from_str("Settings")),
        quit: MenuButton::new(String::from_str("Quit")),
        engine_link: OpenLink {
            label: String::from_str("Made with Bevy"),
            url: String::from_str("https://bevyengine.org"),
            shade: ButtonShade::Normal,
        },
        source_link: OpenLink {
            label: String::from_str("Open source"),
            url: String::from_str("https://github.com/NiklasEi/bevy_game_template"),
            shade: ButtonShade::Normal,
        },
    }
}

/// Pressing play asks for the game.
pub fn handle_main_menu_play_button(interaction: Interaction, next_state: &mut StateStore<AppState>)
    ensures
        final(next_state)@ == if interaction == Interaction::Pressed {
            old(next_state)@.request(AppState::InGame)
        } else {
            old(next_state)@
        },
{
    if interaction == Interaction::Pressed {
        next_state.request_transition(AppState::InGame);
    }
}

/// Pressing settings asks for the settings menu.
pub fn handle_main_menu_settings_button(
    interaction: Interaction,
    next_state: &mut StateStore<AppState>,
)
    ensures
        final(next_state)@ == if interaction == Interaction::Pressed {
            old(next_state)@.request(AppState::SettingsMenu)
        } else {
            old(next_state)@
        },
{
    if interaction == Interaction::Pressed {
        next_state.request_transition(AppState::SettingsMenu);
    }
}

/// Pressing quit asks for the application to end. No state changes.
pub fn handle_main_menu_quit_button(interaction: Interaction, exit_requested: &mut bool)
    ensures
        *final(exit_requested) == (*old(exit_requested) || interaction == Interaction::Pressed),
{
    if interaction == Interaction::Pressed {
        *exit_requested = true;
    }
}

/// The address to open, when a footer link is pressed.
pub fn handle_external_links<'a>(interaction: Interaction, link: &'a OpenLink) -> (address: Option<
    &'a str,
>)
    ensures
        address is Some <==> interaction == Interaction::Pressed,
        address matches Some(url) ==> url@ == link.url@,
{
    if interaction == Interaction::Pressed {
        Some(link.url.as_str())
    } else {
        None
    }
}

} // verus!
