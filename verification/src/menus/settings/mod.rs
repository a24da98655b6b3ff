//! The settings surfaces, one per tab of the settings menu.

pub mod audio_settings;
pub mod controls_settings;
pub mod display_settings;
