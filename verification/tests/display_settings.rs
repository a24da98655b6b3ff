use game_frontend::camera::GameRenderResolution;
use game_frontend::menus::settings::display_settings::{
    find_preset, handle_apply_button, handle_display_settings_back_button,
    handle_fullscreen_button, handle_resolution_button, handle_vsync_button,
    load_display_settings, preset_at, resolution_label, setup_display_settings,
    update_display_settings_text, vsync_label, window_mode_label, DisplaySettingsChanged,
    DisplaySettingsEvents, NewDisplaySettings, WindowModeType, PRESET_COUNT,
};
use game_frontend::menus::ui_components::{ButtonShade, Interaction};
use game_frontend::overlay_state::GameOverlayState;
use game_frontend::state::StateStore;
use game_frontend::window::{PresentMode, WindowConfig, WindowMode};
use game_frontend::AppState;

const PRESETS: [(u32, u32); 7] = [
    (800, 600),
    (1280, 720),
    (1366, 768),
    (1600, 900),
    (1920, 1080),
    (2560, 1440),
    (3840, 2160),
];

fn draft(resolution: (u32, u32), window_mode: WindowModeType, vsync: bool) -> NewDisplaySettings {
    NewDisplaySettings { resolution, window_mode, vsync }
}

fn window(width: u32, height: u32, mode: WindowMode, present_mode: PresentMode) -> WindowConfig {
    WindowConfig::sized(width, height, mode, present_mode)
}

#[test]
fn preset_list_is_the_seven_resolutions_in_order() {
    assert_eq!(PRESET_COUNT, 7);
    for (index, preset) in PRESETS.iter().enumerate() {
        assert_eq!(preset_at(index), *preset);
        assert_eq!(find_preset(*preset), Some(index));
    }
}

#[test]
fn find_preset_rejects_other_resolutions() {
    assert_eq!(find_preset((1024, 768)), None);
    assert_eq!(find_preset((1920, 1081)), None);
    assert_eq!(find_preset((1080, 1920)), None);
    assert_eq!(find_preset((0, 0)), None);
    assert_eq!(find_preset((800, 720)), None);
}

#[test]
fn cycle_resolution_moves_to_next_preset() {
    let mut events = DisplaySettingsEvents::new();
    for index in 0..7 {
        let mut settings = draft(PRESETS[index], WindowModeType::Windowed, true);
        settings.cycle_resolution(&mut events);
        assert_eq!(settings.resolution, PRESETS[(index + 1) % 7]);
        assert_eq!(settings.window_mode, WindowModeType::Windowed);
        assert!(settings.vsync);
    }
}

#[test]
fn cycle_resolution_wraps_from_last_to_first() {
    let mut events = DisplaySettingsEvents::new();
    let mut settings = draft((3840, 2160), WindowModeType::Fullscreen, false);
    settings.cycle_resolution(&mut events);
    assert_eq!(settings.resolution, (800, 600));
}

#[test]
fn cycle_resolution_seven_times_returns_to_start() {
    let mut events = DisplaySettingsEvents::new();
    for start in PRESETS {
        let mut settings = draft(start, WindowModeType::Fullscreen, false);
        for step in 1..=7 {
            settings.cycle_resolution(&mut events);
            if step < 7 {
                assert_ne!(settings.resolution, start);
            }
        }
        assert_eq!(settings.resolution, start);
    }
}

#[test]
fn cycle_resolution_from_unknown_value_gives_default() {
    let mut events = DisplaySettingsEvents::new();
    for odd in [(1024, 768), (0, 0), (1920, 1200), (u32::MAX, u32::MAX)] {
        let mut settings = draft(odd, WindowModeType::Windowed, true);
        settings.cycle_resolution(&mut events);
        assert_eq!(settings.resolution, (1920, 1080));
    }
}

#[test]
fn cycle_window_mode_is_a_three_cycle() {
    let mut events = DisplaySettingsEvents::new();
    let mut settings = draft((1920, 1080), WindowModeType::Windowed, true);
    settings.cycle_window_mode(&mut events);
    assert_eq!(settings.window_mode, WindowModeType::Fullscreen);
    settings.cycle_window_mode(&mut events);
    assert_eq!(settings.window_mode, WindowModeType::BorderlessFullscreen);
    settings.cycle_window_mode(&mut events);
    assert_eq!(settings.window_mode, WindowModeType::Windowed);
    assert_eq!(settings.resolution, (1920, 1080));
    assert!(settings.vsync);
}

#[test]
fn window_mode_next_is_closed_under_repetition() {
    for start in [
        WindowModeType::Windowed,
        WindowModeType::Fullscreen,
        WindowModeType::BorderlessFullscreen,
    ] {
        assert_ne!(start.next(), start);
        assert_ne!(start.next().next(), start);
        assert_eq!(start.next().next().next(), start);
        let mut mode = start;
        for _ in 0..30 {
            mode = mode.next();
        }
        assert_eq!(mode, start);
    }
}

#[test]
fn window_mode_default_is_fullscreen() {
    assert_eq!(WindowModeType::default(), WindowModeType::Fullscreen);
}

#[test]
fn toggle_vsync_flips_only_vsync() {
    let mut events = DisplaySettingsEvents::new();
    let mut settings = draft((1280, 720), WindowModeType::Fullscreen, true);
    settings.toggle_vsync(&mut events);
    assert!(!settings.vsync);
    settings.toggle_vsync(&mut events);
    assert!(settings.vsync);
    assert_eq!(settings.resolution, (1280, 720));
    assert_eq!(settings.window_mode, WindowModeType::Fullscreen);
}

#[test]
fn new_reads_preset_resolution_mode_and_vsync() {
    let settings = NewDisplaySettings::new(&window(
        2560,
        1440,
        WindowMode::BorderlessFullscreen,
        PresentMode::AutoVsync,
    ));
    assert_eq!(settings.resolution, (2560, 1440));
    assert_eq!(settings.window_mode, WindowModeType::BorderlessFullscreen);
    assert!(settings.vsync);
}

#[test]
fn new_normalizes_unknown_resolution_to_default() {
    let settings =
        NewDisplaySettings::new(&window(1024, 768, WindowMode::Windowed, PresentMode::AutoVsync));
    assert_eq!(settings.resolution, (1920, 1080));
    let settings =
        NewDisplaySettings::new(&window(1280, 1080, WindowMode::Windowed, PresentMode::AutoVsync));
    assert_eq!(settings.resolution, (1920, 1080));
}

#[test]
fn new_reads_logical_size_not_physical_size() {
    let mut live = window(2560, 1440, WindowMode::Windowed, PresentMode::AutoVsync);
    live.width = 1280;
    live.height = 720;
    let settings = NewDisplaySettings::new(&live);
    assert_eq!(settings.resolution, (1280, 720));
}

#[test]
fn new_maps_every_live_window_mode() {
    let cases = [
        (WindowMode::Windowed, WindowModeType::Windowed),
        (WindowMode::Fullscreen, WindowModeType::Fullscreen),
        (WindowMode::BorderlessFullscreen, WindowModeType::BorderlessFullscreen),
        (WindowMode::SizedFullscreen, WindowModeType::Windowed),
    ];
    for (live, expected) in cases {
        assert_eq!(WindowModeType::from_live(live), expected);
        let settings = NewDisplaySettings::new(&window(800, 600, live, PresentMode::Fifo));
        assert_eq!(settings.window_mode, expected);
    }
}

#[test]
fn window_mode_to_live_round_trips() {
    for mode in [
        WindowModeType::Windowed,
        WindowModeType::Fullscreen,
        WindowModeType::BorderlessFullscreen,
    ] {
        assert_eq!(WindowModeType::from_live(mode.to_live()), mode);
    }
    assert_eq!(WindowModeType::Fullscreen.to_live(), WindowMode::Fullscreen);
}

#[test]
fn vsync_is_on_only_for_auto_vsync() {
    let cases = [
        (PresentMode::AutoVsync, true),
        (PresentMode::AutoNoVsync, false),
        (PresentMode::Fifo, false),
        (PresentMode::FifoRelaxed, false),
        (PresentMode::Immediate, false),
        (PresentMode::Mailbox, false),
    ];
    for (present_mode, expected) in cases {
        let settings =
            NewDisplaySettings::new(&window(800, 600, WindowMode::Windowed, present_mode));
        assert_eq!(settings.vsync, expected);
    }
}

#[test]
fn reload_discards_unsaved_edits() {
    let mut events = DisplaySettingsEvents::new();
    let live = window(1920, 1080, WindowMode::Fullscreen, PresentMode::AutoVsync);
    let mut settings = NewDisplaySettings::new(&live);
    settings.cycle_resolution(&mut events);
    settings.cycle_window_mode(&mut events);
    settings.toggle_vsync(&mut events);
    settings.reload_from_live(&live, &mut events);
    assert_eq!(settings.resolution, (1920, 1080));
    assert_eq!(settings.window_mode, WindowModeType::Fullscreen);
    assert!(settings.vsync);
}

#[test]
fn reload_twice_gives_the_same_draft() {
    let mut events = DisplaySettingsEvents::new();
    let live = window(1366, 768, WindowMode::Windowed, PresentMode::AutoNoVsync);
    let mut settings = draft((800, 600), WindowModeType::Fullscreen, true);
    settings.reload_from_live(&live, &mut events);
    let first = settings;
    settings.reload_from_live(&live, &mut events);
    assert_eq!(settings.resolution, first.resolution);
    assert_eq!(settings.window_mode, first.window_mode);
    assert_eq!(settings.vsync, first.vsync);
    assert_eq!(settings.resolution, (1366, 768));
    assert_eq!(settings.window_mode, WindowModeType::Windowed);
    assert!(!settings.vsync);
}

#[test]
fn apply_windowed_sets_window_to_drafted_resolution() {
    let mut live = window(1920, 1080, WindowMode::Fullscreen, PresentMode::AutoVsync);
    live.position_automatic = false;
    let mut render = GameRenderResolution::default();
    let settings = draft((1280, 720), WindowModeType::Windowed, false);
    settings.apply(&mut live, &mut render);
    assert_eq!((live.width, live.height), (1280, 720));
    assert_eq!((live.physical_width, live.physical_height), (1280, 720));
    assert_eq!(live.mode, WindowMode::Windowed);
    assert_eq!(live.present_mode, PresentMode::AutoNoVsync);
    assert!(live.position_automatic);
    assert_eq!(render, GameRenderResolution { width: 1280, height: 720 });
}

#[test]
fn apply_fullscreen_keeps_native_physical_size() {
    let mut live = window(1920, 1080, WindowMode::Windowed, PresentMode::AutoNoVsync);
    live.width = 960;
    live.height = 540;
    live.position_automatic = false;
    let mut render = GameRenderResolution::default();
    let settings = draft((3840, 2160), WindowModeType::Fullscreen, true);
    settings.apply(&mut live, &mut render);
    assert_eq!((live.physical_width, live.physical_height), (1920, 1080));
    assert_eq!((live.width, live.height), (1920, 1080));
    assert_eq!(live.mode, WindowMode::Fullscreen);
    assert_eq!(live.present_mode, PresentMode::AutoVsync);
    assert!(!live.position_automatic);
    assert_eq!(render, GameRenderResolution { width: 3840, height: 2160 });
}

#[test]
fn apply_borderless_keeps_native_physical_size() {
    let mut live = window(2560, 1440, WindowMode::Windowed, PresentMode::AutoVsync);
    let mut render = GameRenderResolution::default();
    let settings = draft((800, 600), WindowModeType::BorderlessFullscreen, true);
    settings.apply(&mut live, &mut render);
    assert_eq!((live.physical_width, live.physical_height), (2560, 1440));
    assert_eq!(live.mode, WindowMode::BorderlessFullscreen);
    assert_eq!(render.min_view(), (800, 600));
}

#[test]
fn apply_leaves_the_draft_untouched() {
    let mut live = window(1920, 1080, WindowMode::Windowed, PresentMode::AutoVsync);
    let mut render = GameRenderResolution::default();
    let settings = draft((1600, 900), WindowModeType::Windowed, true);
    settings.apply(&mut live, &mut render);
    assert_eq!(settings.resolution, (1600, 900));
    assert_eq!(settings.window_mode, WindowModeType::Windowed);
    assert!(settings.vsync);
}

#[test]
fn apply_windowed_then_reload_round_trips() {
    let mut live = window(1920, 1080, WindowMode::Fullscreen, PresentMode::AutoVsync);
    let mut render = GameRenderResolution::default();
    let settings = draft((1366, 768), WindowModeType::Windowed, false);
    settings.apply(&mut live, &mut render);
    let reloaded = NewDisplaySettings::new(&live);
    assert_eq!(reloaded.resolution, (1366, 768));
    assert_eq!(reloaded.window_mode, WindowModeType::Windowed);
    assert!(!reloaded.vsync);
}

#[test]
fn render_resolution_default_is_full_hd() {
    let render = GameRenderResolution::default();
    assert_eq!(render.width, 1920);
    assert_eq!(render.height, 1080);
    assert_eq!(render.min_view(), (1920, 1080));
}

#[test]
fn every_edit_of_the_draft_sends_exactly_one_notice() {
    let live = window(1920, 1080, WindowMode::Fullscreen, PresentMode::AutoVsync);
    let mut settings = NewDisplaySettings::new(&live);
    let mut events = DisplaySettingsEvents::new();
    settings.cycle_resolution(&mut events);
    assert_eq!(events.len(), 1);
    settings.cycle_window_mode(&mut events);
    assert_eq!(events.len(), 2);
    settings.toggle_vsync(&mut events);
    assert_eq!(events.len(), 3);
    settings.reload_from_live(&live, &mut events);
    assert_eq!(events.len(), 4);
    assert!(events.read());
    assert_eq!(events.len(), 0);
}

#[test]
fn events_count_and_read() {
    let mut events = DisplaySettingsEvents::new();
    assert!(events.is_empty());
    assert!(!events.read());
    events.send(DisplaySettingsChanged);
    events.send(DisplaySettingsChanged);
    assert!(!events.is_empty());
    assert!(events.read());
    assert!(events.is_empty());
    assert!(!events.read());
}

#[test]
fn resolution_button_pressed_cycles_and_notifies() {
    let mut settings = draft((1920, 1080), WindowModeType::Fullscreen, true);
    let mut events = DisplaySettingsEvents::new();
    let mut shade = ButtonShade::Normal;
    handle_resolution_button(Interaction::Pressed, &mut shade, &mut settings, &mut events);
    assert_eq!(settings.resolution, (2560, 1440));
    assert_eq!(shade, ButtonShade::Active);
    assert!(events.read());
}

#[test]
fn resolution_button_hover_only_recolours() {
    let mut settings = draft((1920, 1080), WindowModeType::Fullscreen, true);
    let mut events = DisplaySettingsEvents::new();
    let mut shade = ButtonShade::Normal;
    handle_resolution_button(Interaction::Hovered, &mut shade, &mut settings, &mut events);
    assert_eq!(shade, ButtonShade::Hovered);
    handle_resolution_button(Interaction::Idle, &mut shade, &mut settings, &mut events);
    assert_eq!(shade, ButtonShade::Normal);
    assert_eq!(settings.resolution, (1920, 1080));
    assert!(events.is_empty());
}

#[test]
fn fullscreen_button_pressed_cycles_and_notifies() {
    let mut settings = draft((1920, 1080), WindowModeType::Fullscreen, true);
    let mut events = DisplaySettingsEvents::new();
    let mut shade = ButtonShade::Hovered;
    handle_fullscreen_button(Interaction::Pressed, &mut shade, &mut settings, &mut events);
    assert_eq!(settings.window_mode, WindowModeType::BorderlessFullscreen);
    assert_eq!(shade, ButtonShade::Active);
    assert!(events.read());
    handle_fullscreen_button(Interaction::Hovered, &mut shade, &mut settings, &mut events);
    assert_eq!(settings.window_mode, WindowModeType::BorderlessFullscreen);
    assert!(events.is_empty());
}

#[test]
fn vsync_button_pressed_toggles_and_notifies() {
    let mut settings = draft((1920, 1080), WindowModeType::Fullscreen, true);
    let mut events = DisplaySettingsEvents::new();
    let mut shade = ButtonShade::Normal;
    handle_vsync_button(Interaction::Pressed, &mut shade, &mut settings, &mut events);
    assert!(!settings.vsync);
    assert_eq!(shade, ButtonShade::Active);
    assert!(events.read());
    handle_vsync_button(Interaction::Idle, &mut shade, &mut settings, &mut events);
    assert!(!settings.vsync);
    assert_eq!(shade, ButtonShade::Normal);
    assert!(events.is_empty());
}

#[test]
fn each_press_sends_its_own_notice() {
    let mut settings = draft((1920, 1080), WindowModeType::Fullscreen, true);
    let mut events = DisplaySettingsEvents::new();
    let mut shade = ButtonShade::Normal;
    handle_resolution_button(Interaction::Pressed, &mut shade, &mut settings, &mut events);
    handle_fullscreen_button(Interaction::Pressed, &mut shade, &mut settings, &mut events);
    handle_vsync_button(Interaction::Pressed, &mut shade, &mut settings, &mut events);
    assert!(!events.is_empty());
    assert!(events.read());
    assert!(events.is_empty());
}

#[test]
fn apply_button_pressed_commits_everything() {
    let mut live = Some(window(1920, 1080, WindowMode::Fullscreen, PresentMode::AutoVsync));
    let mut render = GameRenderResolution::default();
    let mut shade = ButtonShade::Normal;
    let settings = draft((2560, 1440), WindowModeType::Windowed, false);
    handle_apply_button(Interaction::Pressed, &mut shade, &mut live, &settings, &mut render);
    let live = live.expect("the window stays");
    assert_eq!((live.width, live.height), (2560, 1440));
    assert_eq!(live.mode, WindowMode::Windowed);
    assert_eq!(live.present_mode, PresentMode::AutoNoVsync);
    assert_eq!(render, GameRenderResolution { width: 2560, height: 1440 });
    assert_eq!(shade, ButtonShade::Active);
}

#[test]
fn apply_button_without_window_commits_nothing() {
    let mut live: Option<WindowConfig> = None;
    let mut render = GameRenderResolution::default();
    let mut shade = ButtonShade::Normal;
    let settings = draft((2560, 1440), WindowModeType::Windowed, false);
    handle_apply_button(Interaction::Pressed, &mut shade, &mut live, &settings, &mut render);
    assert!(live.is_none());
    assert_eq!(render, GameRenderResolution { width: 1920, height: 1080 });
    assert_eq!(shade, ButtonShade::Active);
}

#[test]
fn apply_button_hover_commits_nothing() {
    let before = window(1920, 1080, WindowMode::Fullscreen, PresentMode::AutoVsync);
    let mut live = Some(before);
    let mut render = GameRenderResolution::default();
    let mut shade = ButtonShade::Normal;
    let settings = draft((2560, 1440), WindowModeType::Windowed, false);
    handle_apply_button(Interaction::Hovered, &mut shade, &mut live, &settings, &mut render);
    assert_eq!(live, Some(before));
    assert_eq!(render, GameRenderResolution::default());
    assert_eq!(shade, ButtonShade::Hovered);
}

#[test]
fn back_from_settings_menu_asks_for_main_menu() {
    let mut app = StateStore::new(AppState::SettingsMenu);
    let mut overlay = StateStore::new(GameOverlayState::Closed);
    handle_display_settings_back_button(Interaction::Pressed, &mut app, &mut overlay);
    assert_eq!(app.staged(), Some(AppState::MainMenu));
    assert_eq!(overlay.staged(), None);
}

#[test]
fn back_from_game_asks_for_game_menu() {
    let mut app = StateStore::new(AppState::InGame);
    let mut overlay = StateStore::new(GameOverlayState::SettingsMenu);
    handle_display_settings_back_button(Interaction::Pressed, &mut app, &mut overlay);
    assert_eq!(app.staged(), None);
    assert_eq!(overlay.staged(), Some(GameOverlayState::GameMenu));
}

#[test]
fn back_from_other_states_is_ignored() {
    for state in [AppState::Loading, AppState::MainMenu] {
        let mut app = StateStore::new(state);
        let mut overlay = StateStore::new(GameOverlayState::Closed);
        handle_display_settings_back_button(Interaction::Pressed, &mut app, &mut overlay);
        assert_eq!(app.staged(), None);
        assert_eq!(overlay.staged(), None);
    }
}

#[test]
fn back_not_pressed_asks_for_nothing() {
    let mut app = StateStore::new(AppState::SettingsMenu);
    let mut overlay = StateStore::new(GameOverlayState::Closed);
    handle_display_settings_back_button(Interaction::Hovered, &mut app, &mut overlay);
    handle_display_settings_back_button(Interaction::Idle, &mut app, &mut overlay);
    assert_eq!(app.staged(), None);
    assert_eq!(overlay.staged(), None);
}

#[test]
fn load_reloads_and_notifies() {
    let live = window(1600, 900, WindowMode::Windowed, PresentMode::AutoNoVsync);
    let mut settings = draft((800, 600), WindowModeType::Fullscreen, true);
    let mut events = DisplaySettingsEvents::new();
    load_display_settings(&mut settings, &live, &mut events);
    assert_eq!(settings.resolution, (1600, 900));
    assert_eq!(settings.window_mode, WindowModeType::Windowed);
    assert!(!settings.vsync);
    assert!(events.read());
}

#[test]
fn labels_show_the_fields() {
    assert_eq!(resolution_label((1920, 1080)), "1920x1080");
    assert_eq!(resolution_label((800, 600)), "800x600");
    assert_eq!(resolution_label((0, 7)), "0x7");
    assert_eq!(window_mode_label(WindowModeType::Windowed), "Windowed");
    assert_eq!(window_mode_label(WindowModeType::Fullscreen), "Fullscreen");
    assert_eq!(window_mode_label(WindowModeType::BorderlessFullscreen), "Borderless");
    assert_eq!(vsync_label(true), "On");
    assert_eq!(vsync_label(false), "Off");
}

#[test]
fn setup_shows_the_draft() {
    let ui = setup_display_settings(&draft((1366, 768), WindowModeType::Windowed, false));
    assert_eq!(ui.resolution.label, "Resolution");
    assert_eq!(ui.resolution.value, "1366x768");
    assert_eq!(ui.fullscreen.label, "Fullscreen");
    assert_eq!(ui.fullscreen.value, "Windowed");
    assert_eq!(ui.vsync.label, "VSync");
    assert_eq!(ui.vsync.value, "Off");
    assert_eq!(ui.apply.label, "Apply");
    assert_eq!(ui.back.label, "Back");
    for shade in [
        ui.resolution.shade,
        ui.fullscreen.shade,
        ui.vsync.shade,
        ui.apply.shade,
        ui.back.shade,
    ] {
        assert_eq!(shade, ButtonShade::Normal);
    }
}

#[test]
fn text_refresh_needs_a_notice() {
    let mut settings = draft((1920, 1080), WindowModeType::Fullscreen, true);
    let mut ui = setup_display_settings(&settings);
    let mut events = DisplaySettingsEvents::new();
    settings.resolution = (2560, 1440);
    update_display_settings_text(&mut ui, &settings, &mut events);
    assert_eq!(ui.resolution.value, "1920x1080");
    settings.cycle_window_mode(&mut events);
    settings.toggle_vsync(&mut events);
    assert_eq!(events.len(), 2);
    update_display_settings_text(&mut ui, &settings, &mut events);
    assert_eq!(ui.resolution.value, "2560x1440");
    assert_eq!(ui.fullscreen.value, "Borderless");
    assert_eq!(ui.vsync.value, "Off");
    assert_eq!(ui.resolution.label, "Resolution");
    assert!(events.is_empty());
}
