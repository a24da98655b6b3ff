//! The audio tab of the settings menu. Its rows show fixed values.

use crate::menus::ui_components::{
    handle_button_hover,
    hover_shade,
    ButtonShade,
    Interaction,
    SettingRow,
};
use vstd::prelude::*;
use vstd::string::StringExecFns;

verus! {

/// The buttons of the audio settings. None of them acts yet.
#[derive(Clone, Copy, Debug, PartialEq, Eq, Hash, Structural)]
pub enum AudioSettingsButton {
    /// The button of the overall volume.
    MasterVolume,
    /// The button of the music volume.
    MusicVolume,
    /// The button of the volume of sound effects.
    SoundEffects,
}

/// The audio settings as they are put on screen.
#[derive(Debug)]
pub struct AudioSettings {
    /// The row of the overall volume.
    pub master_volume: SettingRow,
    /// The row of the music volume.
    pub music_volume: SettingRow,
    /// The row of the volume of sound effects.
    pub sound_effects: SettingRow,
}

impl AudioSettings {
    /// Whether the surface is the one that opening the settings menu puts
    /// on screen: three volumes, all at rest.
    pub open spec fn is_fresh(self) -> bool {
        &&& self.master_volume.is_fresh("Master Volume"@, "100%"@)
        &&& self.music_volume.is_fresh("Music Volume"@, "80%"@)
        &&& self.sound_effects.is_fresh("Sound Effects"@, "90%"@)
    }

    /// The surface after the pointer has met `button`: that button is
    /// recoloured as a plain button is, nothing else changes.
    pub open spec fn hovered(
        self,
        button: AudioSettingsButton,
        interaction: Interaction,
    ) -> AudioSettings {
        match button {
            AudioSettingsButton::MasterVolume => AudioSettings {
                master_volume: self.master_volume.shaded(
                    hover_shade(interaction, self.master_volume.shade),
                ),
                ..self
            },
            AudioSettingsButton::MusicVolume => AudioSettings {
                music_volume: self.music_volume.shaded(
                    hover_shade(interaction, self.music_volume.shade),
                ),
                ..self
            },
            AudioSettingsButton::SoundEffects => AudioSettings {
                sound_effects: self.sound_effects.shaded(
                    hover_shade(interaction, self.sound_effects.shade),
                ),
                ..self
            },
        }
    }

    /// The shade that `button` shows.
    pub open spec fn spec_shade_of(self, button: AudioSettingsButton) -> ButtonShade {
        match button {
            AudioSettingsButton::MasterVolume => self.master_volume.shade,
            AudioSettingsButton::MusicVolume => self.music_volume.shade,
            AudioSettingsButton::SoundEffects => self.sound_effects.shade,
        }
    }

    /// The shade that `button` shows.
    pub fn shade_of(&self, button: AudioSettingsButton) -> (shade: ButtonShade)
        ensures
            shade == self.spec_shade_of(button),
    {
        match button {
            AudioSettingsButton::MasterVolume => self.master_volume.shade,
            AudioSettingsButton::MusicVolume => self.music_volume.shade,
            AudioSettingsButton::SoundEffects => self.sound_effects.shade,
        }
    }

    /// Recolours `button` for a changed interaction.
    pub fn hover(&mut self, button: AudioSettingsButton, interaction: Interaction)
        ensures
            *final(self) == old(self).hovered(button, interaction),
    {
        match button {
            AudioSettingsButton::MasterVolume => handle_button_hover(
                interaction,
                &mut self.master_volume.shade,
            ),
            AudioSettingsButton::MusicVolume => handle_button_hover(
                interaction,
                &mut self.music_volume.shade,
            ),
            AudioSettingsButton::SoundEffects => handle_button_hover(
                interaction,
                &mut self.sound_effects.shade,
            ),
        }
    }
}

/// The audio settings as opening the settings menu puts them on screen.
pub fn setup_audio_settings() -> (surface: AudioSettings)
    ensures
        surface.is_fresh(),
{
    AudioSettings {
        master_volume: SettingRow::new(String::from_str("Master Volume"), String::from_str("100%")),
        music_volume: SettingRow::new(String::from_str("Music Volume"), String::from_str("80%")),
        sound_effects: SettingRow::new(String::from_str("Sound Effects"), String::from_str("90%")),
    }
}

} // verus!
