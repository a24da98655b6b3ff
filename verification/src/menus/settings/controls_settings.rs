//! The controls tab of the settings menu. Its rows show fixed bindings.

use crate::menus::ui_components::{
    handle_button_hover,
    hover_shade,
    ButtonShade,
    Interaction,
    SettingRow,
};
use vstd::prelude::*;
use vstd::string::StringExecFns;

verus! {

/// The buttons of the controls settings. None of them acts yet.
#[derive(Clone, Copy, Debug, PartialEq, Eq, Hash, Structural)]
pub enum ControlsSettingsButton {
    /// The button of the movement keys.
    Movement,
    /// The button of the jump key.
    Jump,
    /// The button of the interaction key.
    Interact,
}

/// The controls settings as they are put on screen.
#[derive(Debug)]
pub struct ControlsSettings {
    /// The row of the movement keys.
    pub movement: SettingRow,
    /// The row of the jump key.
    pub jump: SettingRow,
    /// The row of the interaction key.
    pub interact: SettingRow,
}

impl ControlsSettings {
    /// Whether the surface is the one that opening the settings menu puts
    /// on screen: three bindings, all at rest.
    pub open spec fn is_fresh(self) -> bool {
        &&& self.movement.is_fresh("Movement"@, "WASD"@)
        &&& self.jump.is_fresh("Jump"@, "Space"@)
        &&& self.interact.is_fresh("Interact"@, "E"@)
    }

    /// The surface after the pointer has met `button`: that button is
    /// recoloured as a plain button is, nothing else changes.
    pub open spec fn hovered(
        self,
        button: ControlsSettingsButton,
        interaction: Interaction,
    ) -> ControlsSettings {
        match button {
            ControlsSettingsButton::Movement => ControlsSettings {
                movement: self.movement.shaded(
                    hover_shade(interaction, self.movement.shade),
                ),
                ..self
            },
            ControlsSettingsButton::Jump => ControlsSettings {
                jump: self.jump.shaded(
                    hover_shade(interaction, self.jump.shade),
                ),
                ..self
            },
            ControlsSettingsButton::Interact => ControlsSettings {
                interact: self.interact.shaded(
                    hover_shade(interaction, self.interact.shade),
                ),
                ..self
            },
        }
    }

    /// The shade that `button` shows.
    pub open spec fn spec_shade_of(self, button: ControlsSettingsButton) -> ButtonShade {
        match button {
            ControlsSettingsButton::Movement => self.movement.shade,
            ControlsSettingsButton::Jump => self.jump.shade,
            ControlsSettingsButton::Interact => self.interact.shade,
        }
    }

    /// The shade that `button` shows.
    pub fn shade_of(&self, button: ControlsSettingsButton) -> (shade: ButtonShade)
        ensures
            shade == self.spec_shade_of(button),
    {
        match button {
            ControlsSettingsButton::Movement => self.movement.shade,
            ControlsSettingsButton::Jump => self.jump.shade,
            ControlsSettingsButton::Interact => self.interact.shade,
        }
    }

    /// Recolours `button` for a changed interaction.
    pub fn hover(&mut self, button: ControlsSettingsButton, interaction: Interaction)
        ensures
            *final(self) == old(self).hovered(button, interaction),
    {
        match button {
            ControlsSettingsButton::Movement => handle_button_hover(
                interaction,
                &mut self.movement.shade,
            ),
            ControlsSettingsButton::Jump => handle_button_hover(
                interaction,
                &mut self.jump.shade,
            ),
            ControlsSettingsButton::Interact => handle_button_hover(
                interaction,
                &mut self.interact.shade,
            ),
        }
    }
}

/// The controls settings as opening the settings menu puts them on screen.
pub fn setup_controls_settings() -> (surface: ControlsSettings)
    ensures
        surface.is_fresh(),
{
    ControlsSettings {
        movement: SettingRow::new(String::from_str("Movement"), String::from_str("WASD")),
        jump: SettingRow::new(String::from_str("Jump"), String::from_str("Space")),
        interact: SettingRow::new(String::from_str("Interact"), String::from_str("E")),
    }
}

} // verus!
