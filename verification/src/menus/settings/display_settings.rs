//! The display settings: a draft that the settings surface edits, kept apart
//! from the live window until it is applied.

use crate::camera::GameRenderResolution;
use crate::menus::ui_components::{
    handle_button_hover,
    hover_shade,
    press_shade,
    ButtonShade,
    Interaction,
    MenuButton,
    SettingRow,
};
use crate::overlay_state::GameOverlayState;
use crate::state::{StateStore, StoreModel};
use crate::text::{decimal, decimal_text};
use crate::window::{PresentMode, WindowConfig, WindowMode};
use crate::AppState;
use vstd::prelude::*;
use vstd::string::StringExecFns;

verus! {

/// The notice that a field of the draft has changed.
#[derive(Clone, Copy, Debug, PartialEq, Eq, Hash, Structural)]
pub struct DisplaySettingsChanged;

/// The notices sent since they were last read. A reader learns that
/// something changed, not what or how often it matters: it reads the draft
/// again.
pub struct DisplaySettingsEvents {
    pending: Vec<DisplaySettingsChanged>,
}

impl View for DisplaySettingsEvents {
    type V = nat;

    /// The number of notices that wait to be read.
    closed spec fn view(&self) -> nat {
        self.pending@.len()
    }
}

impl DisplaySettingsEvents {
    /// A channel with no notice waiting.
    pub fn new() -> (events: Self)
        ensures
            events@ == 0,
    {
        DisplaySettingsEvents { pending: Vec::new() }
    }

    /// Sends one notice.
    pub fn send(&mut self, event: DisplaySettingsChanged)
        ensures
            final(self)@ == old(self)@ + 1,
    {
        self.pending.push(event);
    }

    /// The number of notices that wait to be read.
    pub fn len(&self) -> (count: usize)
        ensures
            count == self@,
    {
        self.pending.len()
    }

    /// Whether no notice waits.
    pub fn is_empty(&self) -> (empty: bool)
        ensures
            empty == (self@ == 0),
    {
        self.pending.len() == 0
    }

    /// Reads every waiting notice and says whether there was one.
    pub fn read(&mut self) -> (changed: bool)
        ensures
            changed == (old(self)@ > 0),
            final(self)@ == 0,
    {
        let changed = self.pending.len() > 0;
        self.pending.clear();
        changed
    }
}

/// The way of showing the window that the draft can choose.
#[derive(Clone, Copy, Debug, PartialEq, Eq, Hash, Structural)]
pub enum WindowModeType {
    /// Exclusive fullscreen.
    Fullscreen,
    /// A borderless window over the whole monitor.
    BorderlessFullscreen,
    /// An ordinary window.
    Windowed,
}

impl Default for WindowModeType {
    fn default() -> (mode: Self)
        ensures
            mode == WindowModeType::Fullscreen,
    {
        WindowModeType::Fullscreen
    }
}

impl WindowModeType {
    /// The mode that follows `self` in the cycle windowed, fullscreen,
    /// borderless.
    pub open spec fn spec_next(self) -> WindowModeType {
        match self {
            WindowModeType::Windowed => WindowModeType::Fullscreen,
            WindowModeType::Fullscreen => WindowModeType::BorderlessFullscreen,
            WindowModeType::BorderlessFullscreen => WindowModeType::Windowed,
        }
    }

    /// The mode that follows `self` in the cycle.
    pub fn next(self) -> (mode: WindowModeType)
        ensures
            mode == self.spec_next(),
    {
        match self {
            WindowModeType::Windowed => WindowModeType::Fullscreen,
            WindowModeType::Fullscreen => WindowModeType::BorderlessFullscreen,
            WindowModeType::BorderlessFullscreen => WindowModeType::Windowed,
        }
    }

    /// The choice that stands for a live window mode. A mode that the draft
    /// cannot choose counts as windowed.
    pub open spec fn spec_from_live(mode: WindowMode) -> WindowModeType {
        match mode {
            WindowMode::Fullscreen => WindowModeType::Fullscreen,
            WindowMode::BorderlessFullscreen => WindowModeType::BorderlessFullscreen,
            WindowMode::Windowed | WindowMode::SizedFullscreen => WindowModeType::Windowed,
        }
    }

    /// The choice that stands for a live window mode.
    pub fn from_live(mode: WindowMode) -> (choice: WindowModeType)
        ensures
            choice == WindowModeType::spec_from_live(mode),
    {
        match mode {
            WindowMode::Windowed => WindowModeType::Windowed,
            WindowMode::Fullscreen => WindowModeType::Fullscreen,
            WindowMode::BorderlessFullscreen => WindowModeType::BorderlessFullscreen,
            _ => WindowModeType::Windowed,
        }
    }

    /// The live window mode that the choice asks for.
    pub open spec fn spec_to_live(self) -> WindowMode {
        match self {
            WindowModeType::Windowed => WindowMode::Windowed,
            WindowModeType::Fullscreen => WindowMode::Fullscreen,
            WindowModeType::BorderlessFullscreen => WindowMode::BorderlessFullscreen,
        }
    }

    /// The live window mode that the choice asks for.
    pub fn to_live(self) -> (mode: WindowMode)
        ensures
            mode == self.spec_to_live(),
    {
        match self {
            WindowModeType::Windowed => WindowMode::Windowed,
            WindowModeType::Fullscreen => WindowMode::Fullscreen,
            WindowModeType::BorderlessFullscreen => WindowMode::BorderlessFullscreen,
        }
    }
}

/// Number of resolutions that the draft can choose from.
pub const PRESET_COUNT: usize = 7;

/// The resolution chosen when the one at hand is none of the presets.
pub open spec fn default_resolution() -> (u32, u32) {
    (1920u32, 1080u32)
}

/// The resolutions that the draft can choose from, in cycling order.
pub open spec fn presets() -> Seq<(u32, u32)> {
    seq![
        (800u32, 600u32),
        (1280u32, 720u32),
        (1366u32, 768u32),
        (1600u32, 900u32),
        (1920u32, 1080u32),
        (2560u32, 1440u32),
        (3840u32, 2160u32),
    ]
}

/// Whether `resolution` is one of the presets.
pub open spec fn is_preset(resolution: (u32, u32)) -> bool {
    exists|i: int| 0 <= i < presets().len() && presets()[i] == resolution
}

/// The place of `resolution` in the preset list. Meant for presets.
pub open spec fn preset_position(resolution: (u32, u32)) -> int {
    choose|i: int| 0 <= i < presets().len() && presets()[i] == resolution
}

/// `resolution` if it is a preset, the default otherwise.
pub open spec fn normalized_resolution(resolution: (u32, u32)) -> (u32, u32) {
    if is_preset(resolution) {
        resolution
    } else {
        default_resolution()
    }
}

/// The resolution that cycling moves to from `resolution`: the next preset,
/// the first after the last, and the default from anything else.
pub open spec fn next_resolution(resolution: (u32, u32)) -> (u32, u32) {
    if is_preset(resolution) {
        presets()[(preset_position(resolution) + 1) % (presets().len() as int)]
    } else {
        default_resolution()
    }
}

/// `next_resolution` applied `times` times.
pub open spec fn cycled_resolution(resolution: (u32, u32), times: nat) -> (u32, u32)
    decreases times,
{
    if times == 0 {
        resolution
    } else {
        next_resolution(cycled_resolution(resolution, (times - 1) as nat))
    }
}

/// `WindowModeType::spec_next` applied `times` times.
pub open spec fn cycled_window_mode(mode: WindowModeType, times: nat) -> WindowModeType
    decreases times,
{
    if times == 0 {
        mode
    } else {
        cycled_window_mode(mode, (times - 1) as nat).spec_next()
    }
}

/// The preset list has seven entries, no two of them equal, so that every
/// preset has exactly one place.
pub proof fn lemma_presets_distinct()
    ensures
        presets().len() == PRESET_COUNT,
        forall|i: int, j: int|
            0 <= i < presets().len() && 0 <= j < presets().len() && presets()[i] == presets()[j]
                ==> i == j,
        forall|i: int|
            0 <= i < presets().len() ==> is_preset(#[trigger] presets()[i]) && preset_position(
                presets()[i],
            ) == i,
        is_preset(default_resolution()),
{
    let p = presets();
    assert(p.len() == 7);
    assert(p[0] == (800u32, 600u32));
    assert(p[1] == (1280u32, 720u32));
    assert(p[2] == (1366u32, 768u32));
    assert(p[3] == (1600u32, 900u32));
    assert(p[4] == (1920u32, 1080u32));
    assert(p[5] == (2560u32, 1440u32));
    assert(p[6] == (3840u32, 2160u32));
    assert forall|i: int| 0 <= i < p.len() implies is_preset(#[trigger] p[i]) && preset_position(
        p[i],
    ) == i by {
        let k = preset_position(p[i]);
        assert(0 <= k < p.len() && p[k] == p[i]);
    }
}

/// The preset at place `index`.
pub fn preset_at(index: usize) -> (resolution: (u32, u32))
    requires
        index < PRESET_COUNT,
    ensures
        resolution == presets()[index as int],
        is_preset(resolution),
        preset_position(resolution) == index,
{
    proof {
        lemma_presets_distinct();
    }
    match index {
        0 => (800, 600),
        1 => (1280, 720),
        2 => (1366, 768),
        3 => (1600, 900),
        4 => (1920, 1080),
        5 => (2560, 1440),
        _ => (3840, 2160),
    }
}

/// The place of `resolution` in the preset list, if it is a preset.
pub fn find_preset(resolution: (u32, u32)) -> (place: Option<usize>)
    ensures
        place is Some <==> is_preset(resolution),
        place matches Some(index) ==> index < PRESET_COUNT && index == preset_position(resolution),
{
    proof {
        lemma_presets_distinct();
    }
    let mut index: usize = 0;
    while index < PRESET_COUNT
        invariant
            index <= PRESET_COUNT,
            presets().len() == PRESET_COUNT,
            forall|i: int| 0 <= i < index ==> presets()[i] != resolution,
            forall|i: int|
                0 <= i < presets().len() ==> preset_position(#[trigger] presets()[i]) == i,
        decreases PRESET_COUNT - index,
    {
        let candidate = preset_at(index);
        if candidate.0 == resolution.0 && candidate.1 == resolution.1 {
            assert(presets()[index as int] == resolution);
            return Some(index);
        }
        index += 1;
    }
    None
}

/// The staged display settings: what the settings surface shows and edits.
/// Nothing here reaches the window before `apply`.
#[derive(Clone, Copy, Debug)]
pub struct NewDisplaySettings {
    /// Width and height that the game is to be rendered for.
    pub resolution: (u32, u32),
    /// How the window is to be shown.
    pub window_mode: WindowModeType,
    /// Whether frames are to wait for the display.
    pub vsync: bool,
}

impl NewDisplaySettings {
    /// The draft that stands for the live window: its logical size if that
    /// is a preset and the default resolution if not, its mode as far as the
    /// draft can choose it, and whether it waits for the display.
    pub open spec fn from_live(window: WindowConfig) -> NewDisplaySettings {
        NewDisplaySettings {
            resolution: normalized_resolution((window.width, window.height)),
            window_mode: WindowModeType::spec_from_live(window.mode),
            vsync: window.present_mode == PresentMode::AutoVsync,
        }
    }

    /// The draft after a reload from `window`: the draft that stands for
    /// the window, whatever `self` was.
    pub open spec fn reloaded(self, window: WindowConfig) -> NewDisplaySettings {
        NewDisplaySettings::from_live(window)
    }

    /// The draft after one step of resolution cycling.
    pub open spec fn with_next_resolution(self) -> NewDisplaySettings {
        NewDisplaySettings { resolution: next_resolution(self.resolution), ..self }
    }

    /// The draft after one step of window mode cycling.
    pub open spec fn with_next_window_mode(self) -> NewDisplaySettings {
        NewDisplaySettings { window_mode: self.window_mode.spec_next(), ..self }
    }

    /// The draft with vsync flipped.
    pub open spec fn with_toggled_vsync(self) -> NewDisplaySettings {
        NewDisplaySettings { vsync: !self.vsync, ..self }
    }

    /// The size in physical pixels that applying the draft gives `window`:
    /// the drafted resolution for an ordinary window, and otherwise the
    /// physical size that the window already has.
    pub open spec fn applied_size(self, window: WindowConfig) -> (u32, u32) {
        if self.window_mode == WindowModeType::Windowed {
            self.resolution
        } else {
            (window.physical_width, window.physical_height)
        }
    }

    /// The live window after the draft has been applied to `window`. The
    /// new size is taken at a scale factor of one, so logical and physical
    /// size agree; an ordinary window is handed back to the platform for
    /// placing.
    pub open spec fn applied_to(self, window: WindowConfig) -> WindowConfig {
        let size = self.applied_size(window);
        WindowConfig {
            width: size.0,
            height: size.1,
            physical_width: size.0,
            physical_height: size.1,
            mode: self.window_mode.spec_to_live(),
            present_mode: if self.vsync {
                PresentMode::AutoVsync
            } else {
                PresentMode::AutoNoVsync
            },
            position_automatic: self.window_mode == WindowModeType::Windowed
                || window.position_automatic,
        }
    }

    /// The render resolution that applying the draft sets: the drafted
    /// resolution, whatever the window mode.
    pub open spec fn applied_render_resolution(self) -> GameRenderResolution {
        GameRenderResolution { width: self.resolution.0, height: self.resolution.1 }
    }

    /// The draft that stands for the live window.
    pub fn new(window: &WindowConfig) -> (settings: NewDisplaySettings)
        ensures
            settings == NewDisplaySettings::from_live(*window),
    {
        let current_res = (window.width, window.height);
        let current_mode = WindowModeType::from_live(window.mode);
        let current_vsync = window.present_mode == PresentMode::AutoVsync;
        let resolution = match find_preset(current_res) {
            Some(_) => current_res,
            None => (1920, 1080),
        };
        NewDisplaySettings { resolution, window_mode: current_mode, vsync: current_vsync }
    }

    /// Moves the drafted resolution to the next preset, from the last back
    /// to the first, and sends one notice. A resolution that is no preset
    /// becomes the default.
    pub fn cycle_resolution(&mut self, events: &mut DisplaySettingsEvents)
        ensures
            *final(self) == old(self).with_next_resolution(),
            final(events)@ == old(events)@ + 1,
    {
        self.resolution = match find_preset(self.resolution) {
            Some(index) => preset_at((index + 1) % PRESET_COUNT),
            None => (1920, 1080),
        };
        events.send(DisplaySettingsChanged);
    }

    /// Moves the drafted window mode one step on: windowed, fullscreen,
    /// borderless, and windowed again. Sends one notice.
    pub fn cycle_window_mode(&mut self, events: &mut DisplaySettingsEvents)
        ensures
            *final(self) == old(self).with_next_window_mode(),
            final(events)@ == old(events)@ + 1,
    {
        self.window_mode = self.window_mode.next();
        events.send(DisplaySettingsChanged);
    }

    /// Flips the drafted vsync and sends one notice.
    pub fn toggle_vsync(&mut self, events: &mut DisplaySettingsEvents)
        ensures
            *final(self) == old(self).with_toggled_vsync(),
            final(events)@ == old(events)@ + 1,
    {
        self.vsync = !self.vsync;
        events.send(DisplaySettingsChanged);
    }

    /// Overwrites the draft with what stands for the live window and sends
    /// one notice, so that what is on screen follows. Whatever was drafted
    /// and not applied is lost.
    pub fn reload_from_live(&mut self, window: &WindowConfig, events: &mut DisplaySettingsEvents)
        ensures
            *final(self) == old(self).reloaded(*window),
            final(events)@ == old(events)@ + 1,
    {
        *self = NewDisplaySettings::new(window);
        events.send(DisplaySettingsChanged);
    }

    /// Commits the draft: the window takes its mode, its vsync and the size
    /// that the mode calls for, and the render resolution takes the drafted
    /// resolution. The draft is left as it is.
    pub fn apply(&self, window: &mut WindowConfig, render_resolution: &mut GameRenderResolution)
        ensures
            *final(window) == self.applied_to(*old(window)),
            *final(render_resolution) == self.applied_render_resolution(),
    {
        render_resolution.width = self.resolution.0;
        render_resolution.height = self.resolution.1;

        let (width, height) = match self.window_mode {
            WindowModeType::Windowed => self.resolution,
            _ => (window.physical_width, window.physical_height),
        };

        match self.window_mode {
            WindowModeType::Windowed => {
                window.mode = WindowMode::Windowed;
                window.position_automatic = true;
            },
            WindowModeType::Fullscreen => {
                window.mode = WindowMode::Fullscreen;
            },
            WindowModeType::BorderlessFullscreen => {
                window.mode = WindowMode::BorderlessFullscreen;
            },
        }

        window.width = width;
        window.height = height;
        window.physical_width = width;
        window.physical_height = height;

        window.present_mode = if self.vsync {
            PresentMode::AutoVsync
        } else {
            PresentMode::AutoNoVsync
        };
    }
}

/// Cycling from the preset at place `place` for `times` steps arrives at the
/// preset `times` places further on, counted round the list.
proof fn lemma_cycled_position(place: int, times: nat)
    requires
        0 <= place < presets().len(),
    ensures
        cycled_resolution(presets()[place], times) == presets()[(place + times) % (
        presets().len() as int)],
    decreases times,
{
    lemma_presets_distinct();
    if times > 0 {
        lemma_cycled_position(place, (times - 1) as nat);
        let before = (place + times - 1) % 7;
        assert(0 <= before < 7);
        assert(preset_position(presets()[before]) == before);
        assert((before + 1) % 7 == (place + times) % 7);
    }
}

/// Resolution cycling is one cycle through all seven presets: from any
/// preset it stays among the presets, comes back to where it began after
/// seven steps and not before, and passes every other preset on the way.
/// From a resolution that is no preset one step gives the default.
pub proof fn lemma_resolution_cycle(resolution: (u32, u32))
    ensures
        is_preset(next_resolution(resolution)),
        !is_preset(resolution) ==> next_resolution(resolution) == default_resolution(),
        is_preset(resolution) ==> cycled_resolution(resolution, PRESET_COUNT as nat) == resolution,
        is_preset(resolution) ==> forall|times: nat|
            0 < times < PRESET_COUNT ==> #[trigger] cycled_resolution(resolution, times)
                != resolution,
        is_preset(resolution) ==> forall|other: (u32, u32)|
            is_preset(other) ==> exists|times: nat|
                times < PRESET_COUNT && #[trigger] cycled_resolution(resolution, times) == other,
{
    lemma_presets_distinct();
    if is_preset(resolution) {
        let place = preset_position(resolution);
        assert(presets()[place] == resolution);
        let after = (place + 1) % 7;
        assert(is_preset(presets()[after]));
        lemma_cycled_position(place, 7);
        assert((place + 7) % 7 == place);
        assert forall|times: nat| 0 < times < PRESET_COUNT implies #[trigger] cycled_resolution(
            resolution,
            times,
        ) != resolution by {
            lemma_cycled_position(place, times);
            let there = (place + times) % 7;
            assert(0 <= there < 7 && there != place);
        }
        assert forall|other: (u32, u32)| is_preset(other) implies exists|times: nat|
            times < PRESET_COUNT && #[trigger] cycled_resolution(resolution, times) == other by {
            let target = preset_position(other);
            assert(presets()[target] == other);
            let times: nat = ((target - place + 7) % 7) as nat;
            lemma_cycled_position(place, times);
            assert((place + times) % 7 == target);
            assert(cycled_resolution(resolution, times) == other);
        }
    }
}

/// Window mode cycling is one cycle through the three modes: windowed,
/// fullscreen, borderless and windowed again. Three steps come back to the
/// mode they began with, one or two steps do not.
pub proof fn lemma_window_mode_cycle(mode: WindowModeType)
    ensures
        WindowModeType::Windowed.spec_next() == WindowModeType::Fullscreen,
        WindowModeType::Fullscreen.spec_next() == WindowModeType::BorderlessFullscreen,
        WindowModeType::BorderlessFullscreen.spec_next() == WindowModeType::Windowed,
        cycled_window_mode(mode, 1) != mode,
        cycled_window_mode(mode, 2) != mode,
        cycled_window_mode(mode, 2) != cycled_window_mode(mode, 1),
        cycled_window_mode(mode, 3) == mode,
{
    reveal_with_fuel(cycled_window_mode, 4);
}

/// Window mode cycling repeats every three steps, however long it goes on.
pub proof fn lemma_window_mode_period(mode: WindowModeType, times: nat)
    ensures
        cycled_window_mode(mode, times + 3) == cycled_window_mode(mode, times),
    decreases times,
{
    reveal_with_fuel(cycled_window_mode, 4);
    if times > 0 {
        lemma_window_mode_period(mode, (times - 1) as nat);
    }
}

/// Reloading the draft from the same live window again changes nothing:
/// what a reload gives depends on the window alone, not on the draft that
/// it overwrites.
pub proof fn lemma_reload_idempotent(
    first: NewDisplaySettings,
    second: NewDisplaySettings,
    window: WindowConfig,
)
    ensures
        first.reloaded(window) == second.reloaded(window),
        first.reloaded(window).reloaded(window) == first.reloaded(window),
        is_preset(first.reloaded(window).resolution),
{
    lemma_presets_distinct();
}

/// Applying a draft for an ordinary window with a preset resolution and
/// reloading from the window that results gives the draft back.
pub proof fn lemma_apply_then_reload_windowed(draft: NewDisplaySettings, window: WindowConfig)
    requires
        draft.window_mode == WindowModeType::Windowed,
        is_preset(draft.resolution),
    ensures
        draft.reloaded(draft.applied_to(window)) == draft,
{
}

/// Applying a draft for either fullscreen mode leaves the window with the
/// physical size it had, and the render resolution follows the draft all
/// the same.
pub proof fn lemma_apply_fullscreen_keeps_size(draft: NewDisplaySettings, window: WindowConfig)
    requires
        draft.window_mode != WindowModeType::Windowed,
    ensures
        draft.applied_to(window).physical_width == window.physical_width,
        draft.applied_to(window).physical_height == window.physical_height,
        draft.applied_render_resolution().width == draft.resolution.0,
        draft.applied_render_resolution().height == draft.resolution.1,
{
}

/// The text that shows `resolution`: width, an `x`, height.
pub open spec fn resolution_text(resolution: (u32, u32)) -> Seq<char> {
    decimal(resolution.0 as nat) + seq!['x'] + decimal(resolution.1 as nat)
}

/// The text that shows a window mode.
pub open spec fn window_mode_text(mode: WindowModeType) -> Seq<char> {
    match mode {
        WindowModeType::Windowed => "Windowed"@,
        WindowModeType::Fullscreen => "Fullscreen"@,
        WindowModeType::BorderlessFullscreen => "Borderless"@,
    }
}

/// The text that shows whether vsync is on.
pub open spec fn vsync_text(vsync: bool) -> Seq<char> {
    if vsync {
        "On"@
    } else {
        "Off"@
    }
}

/// The text that shows `resolution`.
pub fn resolution_label(resolution: (u32, u32)) -> (text: String)
    ensures
        text@ == resolution_text(resolution),
{
    proof {
        reveal_strlit("x");
    }
    let mut text = decimal_text(resolution.0);
    text.append("x");
    let height = decimal_text(resolution.1);
    text.append(height.as_str());
    text
}

/// The text that shows `mode`.
pub fn window_mode_label(mode: WindowModeType) -> (text: String)
    ensures
        text@ == window_mode_text(mode),
{
    match mode {
        WindowModeType::Windowed => String::from_str("Windowed"),
        WindowModeType::Fullscreen => String::from_str("Fullscreen"),
        WindowModeType::BorderlessFullscreen => String::from_str("Borderless"),
    }
}

/// The text that shows whether vsync is on.
pub fn vsync_label(vsync: bool) -> (text: String)
    ensures
        text@ == vsync_text(vsync),
{
    if vsync {
        String::from_str("On")
    } else {
        String::from_str("Off")
    }
}

/// The buttons of the display settings.
#[derive(Clone, Copy, Debug, PartialEq, Eq, Hash, Structural)]
pub enum DisplaySettingsButton {
    /// Cycles the drafted resolution.
    Resolution,
    /// Cycles the drafted window mode.
    Fullscreen,
    /// Flips the drafted vsync.
    VSync,
    /// Commits the draft.
    Apply,
    /// Leaves the settings without committing.
    Back,
}

/// The display settings as they are put on screen: one row for each field
/// of the draft, and the two buttons at the foot.
#[derive(Debug)]
pub struct DisplaySettingsUi {
    /// The row of the resolution.
    pub resolution: SettingRow,
    /// The row of the window mode.
    pub fullscreen: SettingRow,
    /// The row of vsync.
    pub vsync: SettingRow,
    /// The button that commits the draft.
    pub apply: MenuButton,
    /// The button that leaves the settings.
    pub back: MenuButton,
}

impl DisplaySettingsUi {
    /// Whether the three rows carry their names and show the fields of
    /// `settings`.
    pub open spec fn shows(self, settings: NewDisplaySettings) -> bool {
        &&& self.resolution.label@ == "Resolution"@
        &&& self.resolution.value@ == resolution_text(settings.resolution)
        &&& self.fullscreen.label@ == "Fullscreen"@
        &&& self.fullscreen.value@ == window_mode_text(settings.window_mode)
        &&& self.vsync.label@ == "VSync"@
        &&& self.vsync.value@ == vsync_text(settings.vsync)
    }

    /// Whether the two buttons at the foot are in place: apply, then back.
    pub open spec fn has_bottom_buttons(self) -> bool {
        &&& self.apply.label@ == "Apply"@
        &&& self.back.label@ == "Back"@
    }

    /// Whether every button is at rest.
    pub open spec fn at_rest(self) -> bool {
        &&& self.resolution.shade == ButtonShade::Normal
        &&& self.fullscreen.shade == ButtonShade::Normal
        &&& self.vsync.shade == ButtonShade::Normal
        &&& self.apply.shade == ButtonShade::Normal
        &&& self.back.shade == ButtonShade::Normal
    }

    /// Whether `other` is `self` with the three values replaced by those
    /// that show `settings`: names, buttons and shades are the same.
    pub open spec fn refreshed(self, settings: NewDisplaySettings, other: Self) -> bool {
        &&& self.resolution.shows_instead(resolution_text(settings.resolution), other.resolution)
        &&& self.fullscreen.shows_instead(window_mode_text(settings.window_mode), other.fullscreen)
        &&& self.vsync.shows_instead(vsync_text(settings.vsync), other.vsync)
        &&& other.apply == self.apply
        &&& other.back == self.back
    }
}

/// The two buttons at the foot of the display settings, at rest: apply,
/// then back.
pub fn create_bottom_buttons() -> (buttons: (MenuButton, MenuButton))
    ensures
        buttons.0.is_fresh("Apply"@),
        buttons.1.is_fresh("Back"@),
{
    (MenuButton::new(String::from_str("Apply")), MenuButton::new(String::from_str("Back")))
}

/// The display settings as they are put on screen for `display_settings`.
pub fn setup_display_settings(display_settings: &NewDisplaySettings) -> (ui: DisplaySettingsUi)
    ensures
        ui.shows(*display_settings),
        ui.has_bottom_buttons(),
        ui.at_rest(),
{
    let resolution = SettingRow::new(
        String::from_str("Resolution"),
        resolution_label(display_settings.resolution),
    );
    let fullscreen = SettingRow::new(
        String::from_str("Fullscreen"),
        window_mode_label(display_settings.window_mode),
    );
    let vsync = SettingRow::new(String::from_str("VSync"), vsync_label(display_settings.vsync));
    let (apply, back) = create_bottom_buttons();
    DisplaySettingsUi { resolution, fullscreen, vsync, apply, back }
}

/// Brings the shown values up to date if a notice waits, and reads the
/// notices either way. Without a notice nothing on screen changes.
pub fn update_display_settings_text(
    ui: &mut DisplaySettingsUi,
    display_settings: &NewDisplaySettings,
    events: &mut DisplaySettingsEvents,
)
    ensures
        final(events)@ == 0,
        old(events)@ > 0 ==> old(ui).refreshed(*display_settings, *final(ui)),
        old(events)@ == 0 ==> *final(ui) == *old(ui),
{
    if events.read() {
        ui.resolution.value = resolution_label(display_settings.resolution);
        ui.fullscreen.value = window_mode_label(display_settings.window_mode);
        ui.vsync.value = vsync_label(display_settings.vsync);
    }
}

/// The step that runs whenever a settings surface is entered: the draft is
/// reloaded from the live window, and a notice is sent.
pub fn load_display_settings(
    display_settings: &mut NewDisplaySettings,
    window: &WindowConfig,
    events: &mut DisplaySettingsEvents,
)
    ensures
        *final(display_settings) == old(display_settings).reloaded(*window),
        final(events)@ == old(events)@ + 1,
{
    display_settings.reload_from_live(window, events);
}

/// The resolution button: pressing it cycles the drafted resolution and
/// sends one notice. Any interaction recolours the button.
pub fn handle_resolution_button(
    interaction: Interaction,
    shade: &mut ButtonShade,
    display_settings: &mut NewDisplaySettings,
    events: &mut DisplaySettingsEvents,
)
    ensures
        *final(shade) == press_shade(interaction),
        *final(display_settings) == if interaction == Interaction::Pressed {
            old(display_settings).with_next_resolution()
        } else {
            *old(display_settings)
        },
        final(events)@ == if interaction == Interaction::Pressed {
            old(events)@ + 1
        } else {
            old(events)@
        },
{
    match interaction {
        Interaction::Pressed => {
            display_settings.cycle_resolution(events);
            *shade = ButtonShade::Active;
        },
        Interaction::Hovered => {
            *shade = ButtonShade::Hovered;
        },
        Interaction::Idle => {
            *shade = ButtonShade::Normal;
        },
    }
}

/// The window mode button: pressing it cycles the drafted window mode and
/// sends one notice. Any interaction recolours the button.
pub fn handle_fullscreen_button(
    interaction: Interaction,
    shade: &mut ButtonShade,
    display_settings: &mut NewDisplaySettings,
    events: &mut DisplaySettingsEvents,
)
    ensures
        *final(shade) == press_shade(interaction),
        *final(display_settings) == if interaction == Interaction::Pressed {
            old(display_settings).with_next_window_mode()
        } else {
            *old(display_settings)
        },
        final(events)@ == if interaction == Interaction::Pressed {
            old(events)@ + 1
        } else {
            old(events)@
        },
{
    match interaction {
        Interaction::Pressed => {
            display_settings.cycle_window_mode(events);
            *shade = ButtonShade::Active;
        },
        Interaction::Hovered => {
            *shade = ButtonShade::Hovered;
        },
        Interaction::Idle => {
            *shade = ButtonShade::Normal;
        },
    }
}

/// The vsync button: pressing it flips the drafted vsync and sends one
/// notice. Any interaction recolours the button.
pub fn handle_vsync_button(
    interaction: Interaction,
    shade: &mut ButtonShade,
    display_settings: &mut NewDisplaySettings,
    events: &mut DisplaySettingsEvents,
)
    ensures
        *final(shade) == press_shade(interaction),
        *final(display_settings) == if interaction == Interaction::Pressed {
            old(display_settings).with_toggled_vsync()
        } else {
            *old(display_settings)
        },
        final(events)@ == if interaction == Interaction::Pressed {
            old(events)@ + 1
        } else {
            old(events)@
        },
{
    match interaction {
        Interaction::Pressed => {
            display_settings.toggle_vsync(events);
            *shade = ButtonShade::Active;
        },
        Interaction::Hovered => {
            *shade = ButtonShade::Hovered;
        },
        Interaction::Idle => {
            *shade = ButtonShade::Normal;
        },
    }
}

/// The apply button: pressing it commits the draft to the window and to
/// the render resolution, all of it or, where there is no window, none of
/// it. Any interaction recolours the button.
pub fn handle_apply_button(
    interaction: Interaction,
    shade: &mut ButtonShade,
    window: &mut Option<WindowConfig>,
    display_settings: &NewDisplaySettings,
    render_resolution: &mut GameRenderResolution,
)
    ensures
        *final(shade) == press_shade(interaction),
        *final(window) == match *old(window) {
            Some(live) if interaction == Interaction::Pressed => Some(
                display_settings.applied_to(live),
            ),
            _ => *old(window),
        },
        *final(render_resolution) == if interaction == Interaction::Pressed && *old(window)
            is Some {
            display_settings.applied_render_resolution()
        } else {
            *old(render_resolution)
        },
{
    match interaction {
        Interaction::Pressed => {
            match *window {
                Some(live) => {
                    let mut committed = live;
                    display_settings.apply(&mut committed, render_resolution);
                    *window = Some(committed);
                },
                None => {},
            }
            *shade = ButtonShade::Active;
        },
        Interaction::Hovered => {
            *shade = ButtonShade::Hovered;
        },
        Interaction::Idle => {
            *shade = ButtonShade::Normal;
        },
    }
}

/// Where the back button leads from `app`: to the main menu from the
/// settings menu, to the game menu from the game, and nowhere from any
/// other state.
pub open spec fn back_request(app: AppState) -> (Option<AppState>, Option<GameOverlayState>) {
    match app {
        AppState::SettingsMenu => (Some(AppState::MainMenu), None),
        AppState::InGame => (None, Some(GameOverlayState::GameMenu)),
        _ => (None, None),
    }
}

/// The back button: pressing it asks for the surface that the settings
/// were opened from. Nothing is committed, and in a state from which the
/// settings cannot have been opened nothing is asked for.
pub fn handle_display_settings_back_button(
    interaction: Interaction,
    next_state: &mut StateStore<AppState>,
    next_overlay_state: &mut StateStore<GameOverlayState>,
)
    ensures
        final(next_state)@ == match back_request(old(next_state)@.current).0 {
            Some(target) if interaction == Interaction::Pressed => old(next_state)@.request(target),
            _ => old(next_state)@,
        },
        final(next_overlay_state)@ == match back_request(old(next_state)@.current).1 {
            Some(target) if interaction == Interaction::Pressed => old(next_overlay_state)@.request(
                target,
            ),
            _ => old(next_overlay_state)@,
        },
{
    if interaction == Interaction::Pressed {
        match next_state.current() {
            AppState::SettingsMenu => {
                next_state.request_transition(AppState::MainMenu);
            },
            AppState::InGame => {
                next_overlay_state.request_transition(GameOverlayState::GameMenu);
            },
            _ => {},
        }
    }
}

impl DisplaySettingsButton {
    /// Whether pressing the button edits the draft.
    pub open spec fn edits_draft(self) -> bool {
        self == DisplaySettingsButton::Resolution || self == DisplaySettingsButton::Fullscreen
            || self == DisplaySettingsButton::VSync
    }
}

impl DisplaySettingsUi {
    /// The shade that `button` shows.
    pub open spec fn spec_shade_of(self, button: DisplaySettingsButton) -> ButtonShade {
        match button {
            DisplaySettingsButton::Resolution => self.resolution.shade,
            DisplaySettingsButton::Fullscreen => self.fullscreen.shade,
            DisplaySettingsButton::VSync => self.vsync.shade,
            DisplaySettingsButton::Apply => self.apply.shade,
            DisplaySettingsButton::Back => self.back.shade,
        }
    }

    /// The shade that `button` shows.
    pub fn shade_of(&self, button: DisplaySettingsButton) -> (shade: ButtonShade)
        ensures
            shade == self.spec_shade_of(button),
    {
        match button {
            DisplaySettingsButton::Resolution => self.resolution.shade,
            DisplaySettingsButton::Fullscreen => self.fullscreen.shade,
            DisplaySettingsButton::VSync => self.vsync.shade,
            DisplaySettingsButton::Apply => self.apply.shade,
            DisplaySettingsButton::Back => self.back.shade,
        }
    }

    /// The surface after the pointer has met `button`: that button is
    /// recoloured, nothing else changes. The back button is recoloured as a
    /// plain button is; the others also show when they are pressed.
    pub open spec fn shaded_by(
        self,
        button: DisplaySettingsButton,
        interaction: Interaction,
    ) -> DisplaySettingsUi {
        match button {
            DisplaySettingsButton::Resolution => DisplaySettingsUi {
                resolution: self.resolution.shaded(press_shade(interaction)),
                ..self
            },
            DisplaySettingsButton::Fullscreen => DisplaySettingsUi {
                fullscreen: self.fullscreen.shaded(press_shade(interaction)),
                ..self
            },
            DisplaySettingsButton::VSync => DisplaySettingsUi {
                vsync: self.vsync.shaded(press_shade(interaction)),
                ..self
            },
            DisplaySettingsButton::Apply => DisplaySettingsUi {
                apply: self.apply.shaded(press_shade(interaction)),
                ..self
            },
            DisplaySettingsButton::Back => DisplaySettingsUi {
                back: self.back.shaded(hover_shade(interaction, self.back.shade)),
                ..self
            },
        }
    }
}

impl NewDisplaySettings {
    /// The draft after `interaction` has met `button`: pressing one of the
    /// three field buttons moves that field one step on, and nothing else
    /// changes the draft.
    pub open spec fn after_button(
        self,
        button: DisplaySettingsButton,
        interaction: Interaction,
    ) -> NewDisplaySettings {
        if interaction != Interaction::Pressed {
            self
        } else {
            match button {
                DisplaySettingsButton::Resolution => self.with_next_resolution(),
                DisplaySettingsButton::Fullscreen => self.with_next_window_mode(),
                DisplaySettingsButton::VSync => self.with_toggled_vsync(),
                _ => self,
            }
        }
    }

    /// Whether `interaction` on `button` commits the draft to `window`:
    /// the apply button, pressed, with a window to commit to.
    pub open spec fn commits(
        button: DisplaySettingsButton,
        interaction: Interaction,
        window: Option<WindowConfig>,
    ) -> bool {
        button == DisplaySettingsButton::Apply && interaction == Interaction::Pressed && window
            is Some
    }

    /// The window after `interaction` has met `button`.
    pub open spec fn window_after(
        self,
        button: DisplaySettingsButton,
        interaction: Interaction,
        window: Option<WindowConfig>,
    ) -> Option<WindowConfig> {
        match window {
            Some(live) if Self::commits(button, interaction, window) => Some(self.applied_to(live)),
            _ => window,
        }
    }

    /// The render resolution after `interaction` has met `button`.
    pub open spec fn render_resolution_after(
        self,
        button: DisplaySettingsButton,
        interaction: Interaction,
        window: Option<WindowConfig>,
        render_resolution: GameRenderResolution,
    ) -> GameRenderResolution {
        if Self::commits(button, interaction, window) {
            self.applied_render_resolution()
        } else {
            render_resolution
        }
    }
}

/// The number of notices that `interaction` on `button` sends: one for a
/// press that edits the draft, none otherwise.
pub open spec fn notices_for(button: DisplaySettingsButton, interaction: Interaction) -> nat {
    if interaction == Interaction::Pressed && button.edits_draft() {
        1
    } else {
        0
    }
}

/// The application state store after `interaction` has met `button`: the
/// back button, pressed in the settings menu, asks for the main menu.
pub open spec fn app_after_button(
    app: StoreModel<AppState>,
    button: DisplaySettingsButton,
    interaction: Interaction,
) -> StoreModel<AppState> {
    match back_request(app.current).0 {
        Some(target) if button == DisplaySettingsButton::Back && interaction
            == Interaction::Pressed => app.request(target),
        _ => app,
    }
}

/// The overlay store after `interaction` has met `button`: the back
/// button, pressed in the game, asks for the game menu.
pub open spec fn overlay_after_button(
    app: StoreModel<AppState>,
    overlay: StoreModel<GameOverlayState>,
    button: DisplaySettingsButton,
    interaction: Interaction,
) -> StoreModel<GameOverlayState> {
    match back_request(app.current).1 {
        Some(target) if button == DisplaySettingsButton::Back && interaction
            == Interaction::Pressed => overlay.request(target),
        _ => overlay,
    }
}

/// One interaction with a button of the display settings: the button is
/// recoloured, and a press does what the button stands for.
pub fn handle_display_settings_button(
    button: DisplaySettingsButton,
    interaction: Interaction,
    ui: &mut DisplaySettingsUi,
    display_settings: &mut NewDisplaySettings,
    events: &mut DisplaySettingsEvents,
    window: &mut Option<WindowConfig>,
    render_resolution: &mut GameRenderResolution,
    next_state: &mut StateStore<AppState>,
    next_overlay_state: &mut StateStore<GameOverlayState>,
)
    ensures
        *final(ui) == old(ui).shaded_by(button, interaction),
        *final(display_settings) == old(display_settings).after_button(button, interaction),
        final(events)@ == old(events)@ + notices_for(button, interaction),
        *final(window) == old(display_settings).window_after(button, interaction, *old(window)),
        *final(render_resolution) == old(display_settings).render_resolution_after(
            button,
            interaction,
            *old(window),
            *old(render_resolution),
        ),
        final(next_state)@ == app_after_button(old(next_state)@, button, interaction),
        final(next_overlay_state)@ == overlay_after_button(
            old(next_state)@,
            old(next_overlay_state)@,
            button,
            interaction,
        ),
{
    match button {
        DisplaySettingsButton::Resolution => handle_resolution_button(
            interaction,
            &mut ui.resolution.shade,
            display_settings,
            events,
        ),
        DisplaySettingsButton::Fullscreen => handle_fullscreen_button(
            interaction,
            &mut ui.fullscreen.shade,
            display_settings,
            events,
        ),
        DisplaySettingsButton::VSync => handle_vsync_button(
            interaction,
            &mut ui.vsync.shade,
            display_settings,
            events,
        ),
        DisplaySettingsButton::Apply => handle_apply_button(
            interaction,
            &mut ui.apply.shade,
            window,
            display_settings,
            render_resolution,
        ),
        DisplaySettingsButton::Back => {
            handle_button_hover(interaction, &mut ui.back.shade);
            handle_display_settings_back_button(interaction, next_state, next_overlay_state);
        },
    }
}

} // verus!
