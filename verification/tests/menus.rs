use game_frontend::menus::game_menu::{
    handle_quit_button, handle_quit_to_os_button, handle_resume_button, handle_settings_button,
    setup_game_menu, GameMenuButton,
};
use game_frontend::menus::main_menu::{
    handle_external_links, handle_main_menu_play_button, handle_main_menu_quit_button,
    handle_main_menu_settings_button, setup_main_menu, MainMenuButton,
};
use game_frontend::menus::settings::audio_settings::{setup_audio_settings, AudioSettingsButton};
use game_frontend::menus::settings::controls_settings::{
    setup_controls_settings, ControlsSettingsButton,
};
use game_frontend::menus::settings::display_settings::{NewDisplaySettings, WindowModeType};
use game_frontend::menus::settings_menu::setup_settings_menu;
use game_frontend::menus::ui_components::{
    handle_button_hover, ButtonShade, Interaction, MenuButton, SettingRow,
};
use game_frontend::overlay_state::GameOverlayState;
use game_frontend::state::StateStore;
use game_frontend::AppState;

#[test]
fn button_hover_recolours_and_press_does_not() {
    let mut shade = ButtonShade::default();
    assert_eq!(shade, ButtonShade::Normal);
    handle_button_hover(Interaction::Hovered, &mut shade);
    assert_eq!(shade, ButtonShade::Hovered);
    handle_button_hover(Interaction::Pressed, &mut shade);
    assert_eq!(shade, ButtonShade::Hovered);
    handle_button_hover(Interaction::Idle, &mut shade);
    assert_eq!(shade, ButtonShade::Normal);
    handle_button_hover(Interaction::Pressed, &mut shade);
    assert_eq!(shade, ButtonShade::Normal);
}

#[test]
fn new_button_and_row_are_at_rest() {
    let button = MenuButton::new(String::from("Go"));
    assert_eq!(button.label, "Go");
    assert_eq!(button.shade, ButtonShade::Normal);
    let row = SettingRow::new(String::from("Volume"), String::from("11"));
    assert_eq!(row.label, "Volume");
    assert_eq!(row.value, "11");
    assert_eq!(row.shade, ButtonShade::Normal);
}

#[test]
fn main_menu_offers_play_settings_quit_and_two_links() {
    let menu = setup_main_menu();
    assert_eq!(menu.title, "Untitled Game");
    assert_eq!(menu.play.label, "Play");
    assert_eq!(menu.settings.label, "Settings");
    assert_eq!(menu.quit.label, "Quit");
    assert_eq!(menu.engine_link.label, "Made with Bevy");
    assert_eq!(menu.engine_link.url, "https://bevyengine.org");
    assert_eq!(menu.source_link.label, "Open source");
    assert_eq!(menu.source_link.url, "https://github.com/NiklasEi/bevy_game_template");
    for shade in [
        menu.play.shade,
        menu.settings.shade,
        menu.quit.shade,
        menu.engine_link.shade,
        menu.source_link.shade,
    ] {
        assert_eq!(shade, ButtonShade::Normal);
    }
}

#[test]
fn main_menu_hover_recolours_one_button() {
    let mut menu = setup_main_menu();
    menu.hover(MainMenuButton::Settings, Interaction::Hovered);
    assert_eq!(menu.settings.shade, ButtonShade::Hovered);
    assert_eq!(menu.play.shade, ButtonShade::Normal);
    assert_eq!(menu.quit.shade, ButtonShade::Normal);
    menu.hover(MainMenuButton::SourceLink, Interaction::Hovered);
    assert_eq!(menu.source_link.shade, ButtonShade::Hovered);
    assert_eq!(menu.engine_link.shade, ButtonShade::Normal);
    menu.hover(MainMenuButton::Settings, Interaction::Idle);
    assert_eq!(menu.settings.shade, ButtonShade::Normal);
    assert_eq!(menu.settings.label, "Settings");
}

#[test]
fn play_button_asks_for_game_only_when_pressed() {
    let mut app = StateStore::new(AppState::MainMenu);
    handle_main_menu_play_button(Interaction::Hovered, &mut app);
    handle_main_menu_play_button(Interaction::Idle, &mut app);
    assert_eq!(app.staged(), None);
    handle_main_menu_play_button(Interaction::Pressed, &mut app);
    assert_eq!(app.staged(), Some(AppState::InGame));
    assert_eq!(app.current(), AppState::MainMenu);
}

#[test]
fn settings_button_asks_for_settings_menu_only_when_pressed() {
    let mut app = StateStore::new(AppState::MainMenu);
    handle_main_menu_settings_button(Interaction::Hovered, &mut app);
    assert_eq!(app.staged(), None);
    handle_main_menu_settings_button(Interaction::Pressed, &mut app);
    assert_eq!(app.staged(), Some(AppState::SettingsMenu));
}

#[test]
fn quit_buttons_ask_for_exit_only_when_pressed() {
    let mut exit = false;
    handle_main_menu_quit_button(Interaction::Hovered, &mut exit);
    handle_quit_to_os_button(Interaction::Idle, &mut exit);
    assert!(!exit);
    handle_main_menu_quit_button(Interaction::Pressed, &mut exit);
    assert!(exit);
    handle_main_menu_quit_button(Interaction::Idle, &mut exit);
    assert!(exit);
    let mut exit = false;
    handle_quit_to_os_button(Interaction::Pressed, &mut exit);
    assert!(exit);
}

#[test]
fn external_link_is_opened_only_when_pressed() {
    let menu = setup_main_menu();
    assert_eq!(handle_external_links(Interaction::Hovered, &menu.engine_link), None);
    assert_eq!(handle_external_links(Interaction::Idle, &menu.engine_link), None);
    assert_eq!(
        handle_external_links(Interaction::Pressed, &menu.engine_link),
        Some("https://bevyengine.org")
    );
    assert_eq!(
        handle_external_links(Interaction::Pressed, &menu.source_link),
        Some("https://github.com/NiklasEi/bevy_game_template")
    );
}

#[test]
fn game_menu_offers_four_buttons() {
    let menu = setup_game_menu();
    assert_eq!(menu.title, "Game Menu");
    assert_eq!(menu.resume.label, "Resume");
    assert_eq!(menu.settings.label, "Settings");
    assert_eq!(menu.quit.label, "Quit to Menu");
    assert_eq!(menu.quit_to_os.label, "Quit to OS");
    for shade in
        [menu.resume.shade, menu.settings.shade, menu.quit.shade, menu.quit_to_os.shade]
    {
        assert_eq!(shade, ButtonShade::Normal);
    }
}

#[test]
fn game_menu_hover_recolours_one_button() {
    let mut menu = setup_game_menu();
    menu.hover(GameMenuButton::QuitToOs, Interaction::Hovered);
    assert_eq!(menu.quit_to_os.shade, ButtonShade::Hovered);
    assert_eq!(menu.quit.shade, ButtonShade::Normal);
    menu.hover(GameMenuButton::QuitToOs, Interaction::Pressed);
    assert_eq!(menu.quit_to_os.shade, ButtonShade::Hovered);
    menu.hover(GameMenuButton::Resume, Interaction::Hovered);
    menu.hover(GameMenuButton::QuitToOs, Interaction::Idle);
    assert_eq!(menu.resume.shade, ButtonShade::Hovered);
    assert_eq!(menu.quit_to_os.shade, ButtonShade::Normal);
}

#[test]
fn resume_button_asks_for_closed_overlay() {
    let mut overlay = StateStore::new(GameOverlayState::GameMenu);
    handle_resume_button(Interaction::Hovered, &mut overlay);
    assert_eq!(overlay.staged(), None);
    handle_resume_button(Interaction::Pressed, &mut overlay);
    assert_eq!(overlay.staged(), Some(GameOverlayState::Closed));
}

#[test]
fn game_menu_settings_button_asks_for_settings_overlay() {
    let mut overlay = StateStore::new(GameOverlayState::GameMenu);
    handle_settings_button(Interaction::Idle, &mut overlay);
    assert_eq!(overlay.staged(), None);
    handle_settings_button(Interaction::Pressed, &mut overlay);
    assert_eq!(overlay.staged(), Some(GameOverlayState::SettingsMenu));
}

#[test]
fn quit_button_stages_both_transitions_together() {
    let mut app = StateStore::new(AppState::InGame);
    let mut overlay = StateStore::new(GameOverlayState::GameMenu);
    handle_quit_button(Interaction::Hovered, &mut app, &mut overlay);
    assert_eq!(app.staged(), None);
    assert_eq!(overlay.staged(), None);
    handle_quit_button(Interaction::Pressed, &mut app, &mut overlay);
    assert_eq!(app.staged(), Some(AppState::MainMenu));
    assert_eq!(overlay.staged(), Some(GameOverlayState::Closed));
    assert_eq!(app.current(), AppState::InGame);
    assert_eq!(overlay.current(), GameOverlayState::GameMenu);
}

#[test]
fn audio_settings_show_three_volumes() {
    let mut surface = setup_audio_settings();
    assert_eq!(surface.master_volume.label, "Master Volume");
    assert_eq!(surface.master_volume.value, "100%");
    assert_eq!(surface.music_volume.label, "Music Volume");
    assert_eq!(surface.music_volume.value, "80%");
    assert_eq!(surface.sound_effects.label, "Sound Effects");
    assert_eq!(surface.sound_effects.value, "90%");
    surface.hover(AudioSettingsButton::MusicVolume, Interaction::Hovered);
    assert_eq!(surface.music_volume.shade, ButtonShade::Hovered);
    assert_eq!(surface.master_volume.shade, ButtonShade::Normal);
    assert_eq!(surface.sound_effects.shade, ButtonShade::Normal);
}

#[test]
fn controls_settings_show_three_bindings() {
    let mut surface = setup_controls_settings();
    assert_eq!(surface.movement.label, "Movement");
    assert_eq!(surface.movement.value, "WASD");
    assert_eq!(surface.jump.label, "Jump");
    assert_eq!(surface.jump.value, "Space");
    assert_eq!(surface.interact.label, "Interact");
    assert_eq!(surface.interact.value, "E");
    surface.hover(ControlsSettingsButton::Interact, Interaction::Hovered);
    assert_eq!(surface.interact.shade, ButtonShade::Hovered);
    surface.hover(ControlsSettingsButton::Interact, Interaction::Idle);
    assert_eq!(surface.interact.shade, ButtonShade::Normal);
    assert_eq!(surface.movement.shade, ButtonShade::Normal);
}

#[test]
fn settings_menu_opens_on_the_display_tab() {
    let settings = NewDisplaySettings {
        resolution: (1280, 720),
        window_mode: WindowModeType::BorderlessFullscreen,
        vsync: true,
    };
    let menu = setup_settings_menu(&settings);
    assert_eq!(menu.title, "Settings");
    assert_eq!(menu.tab_labels, vec!["Display", "Audio", "Controls"]);
    assert_eq!(menu.tabs.len(), 3);
    assert_eq!(menu.tabs.selected(), 0);
    for k in 0..3 {
        assert_eq!(menu.tabs.button(k).expect("a tab").active, k == 0);
        assert_eq!(menu.tabs.content(k).expect("a tab").visible, k == 0);
        assert_eq!(menu.tabs.button(k).expect("a tab").shade, ButtonShade::Normal);
    }
    assert_eq!(menu.display.resolution.value, "1280x720");
    assert_eq!(menu.display.fullscreen.value, "Borderless");
    assert_eq!(menu.display.vsync.value, "On");
    assert_eq!(menu.audio.master_volume.value, "100%");
    assert_eq!(menu.controls.jump.value, "Space");
}
