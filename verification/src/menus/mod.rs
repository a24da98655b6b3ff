//! The menus: what each one offers and what pressing its buttons does.

pub mod game_menu;
pub mod main_menu;
pub mod settings;
pub mod settings_menu;
pub mod ui_components;
