//! The settings menu: a row of tabs, of which exactly one is selected, and
//! under it the content of the selected tab.

use crate::camera::GameRenderResolution;
use crate::menus::settings::audio_settings::{
    setup_audio_settings,
    AudioSettings,
    AudioSettingsButton,
};
use crate::menus::settings::controls_settings::{
    setup_controls_settings,
    ControlsSettings,
    ControlsSettingsButton,
};
use crate::menus::settings::display_settings::{
    app_after_button,
    handle_display_settings_button,
    notices_for,
    overlay_after_button,
    setup_display_settings,
    DisplaySettingsButton,
    DisplaySettingsEvents,
    DisplaySettingsUi,
    NewDisplaySettings,
};
use crate::menus::ui_components::{hover_shade, ButtonShade, Interaction};
use crate::overlay_state::GameOverlayState;
use crate::state::StateStore;
use crate::window::WindowConfig;
use crate::AppState;
use vstd::prelude::*;
use vstd::string::StringExecFns;

verus! {

/// The button of one tab.
#[derive(Clone, Copy, Debug, PartialEq, Eq, Hash, Structural)]
pub struct TabButton {
    /// Which tab the button selects.
    pub tab_index: usize,
    /// Whether the tab is the selected one.
    pub active: bool,
    /// Which of its colours the button shows.
    pub shade: ButtonShade,
}

/// The content block of one tab.
#[derive(Clone, Copy, Debug, PartialEq, Eq, Hash, Structural)]
pub struct TabContent {
    /// Which tab the block belongs to.
    pub tab_index: usize,
    /// Whether the block is shown.
    pub visible: bool,
}

/// A set of tabs as a plain value: the buttons and the content blocks, each
/// in the order of the tabs.
pub ghost struct TabSetModel {
    /// The buttons.
    pub buttons: Seq<TabButton>,
    /// The content blocks.
    pub contents: Seq<TabContent>,
}

impl TabSetModel {
    /// The number of tabs.
    pub open spec fn count(self) -> nat {
        self.buttons.len()
    }

    /// Whether every tab has its button and its content block, in order.
    pub open spec fn indexed(self) -> bool {
        &&& self.contents.len() == self.buttons.len()
        &&& forall|k: int|
            0 <= k < self.buttons.len() ==> (#[trigger] self.buttons[k]).tab_index == k
        &&& forall|k: int|
            0 <= k < self.contents.len() ==> (#[trigger] self.contents[k]).tab_index == k
    }

    /// Whether `tab` is selected and no other tab is: its button alone is
    /// active and its content alone is shown.
    pub open spec fn selects(self, tab: int) -> bool {
        &&& 0 <= tab < self.count()
        &&& forall|k: int|
            0 <= k < self.buttons.len() ==> (#[trigger] self.buttons[k]).active == (k == tab)
        &&& forall|k: int|
            0 <= k < self.contents.len() ==> (#[trigger] self.contents[k]).visible == (k == tab)
    }

    /// Whether the set is in order and has exactly one tab selected.
    pub open spec fn wf(self) -> bool {
        self.indexed() && exists|tab: int| self.selects(tab)
    }

    /// The selected tab. Meant for a set that is well formed.
    pub open spec fn selected(self) -> int {
        choose|tab: int| self.selects(tab)
    }

    /// The tabs whose button is active.
    pub open spec fn active_tabs(self) -> Set<int> {
        Set::new(|k: int| 0 <= k < self.buttons.len() && self.buttons[k].active)
    }

    /// The tabs whose content is shown.
    pub open spec fn visible_contents(self) -> Set<int> {
        Set::new(|k: int| 0 <= k < self.contents.len() && self.contents[k].visible)
    }

    /// A set of `count` tabs with the first one selected and every button
    /// at rest.
    pub open spec fn fresh(count: nat) -> TabSetModel {
        TabSetModel {
            buttons: Seq::new(
                count,
                |k: int|
                    TabButton { tab_index: k as usize, active: k == 0, shade: ButtonShade::Normal },
            ),
            contents: Seq::new(
                count,
                |k: int| TabContent { tab_index: k as usize, visible: k == 0 },
            ),
        }
    }

    /// The set after `tab` has been selected: its button alone is active
    /// and shows the active colour, the others are at rest, and its content
    /// alone is shown. Selecting what is no tab of the set changes nothing.
    pub open spec fn select(self, tab: int) -> TabSetModel {
        if 0 <= tab < self.count() {
            TabSetModel {
                buttons: Seq::new(
                    self.buttons.len(),
                    |k: int|
                        TabButton {
                            tab_index: self.buttons[k].tab_index,
                            active: k == tab,
                            shade: if k == tab {
                                ButtonShade::Active
                            } else {
                                ButtonShade::Normal
                            },
                        },
                ),
                contents: Seq::new(
                    self.contents.len(),
                    |k: int|
                        TabContent { tab_index: self.contents[k].tab_index, visible: k == tab },
                ),
            }
        } else {
            self
        }
    }

    /// The shade of a tab's button after `interaction`: hovering and
    /// leaving recolour it, with colours of their own for the selected tab;
    /// pressing leaves it as it is.
    pub open spec fn tab_hover_shade(
        interaction: Interaction,
        active: bool,
        shade: ButtonShade,
    ) -> ButtonShade {
        match interaction {
            Interaction::Hovered => if active {
                ButtonShade::ActiveHovered
            } else {
                ButtonShade::Hovered
            },
            Interaction::Idle => if active {
                ButtonShade::Active
            } else {
                ButtonShade::Normal
            },
            Interaction::Pressed => shade,
        }
    }

    /// The set after the pointer has met the button of `tab`: that button
    /// is recoloured, nothing else changes.
    pub open spec fn hover(self, tab: int, interaction: Interaction) -> TabSetModel {
        if 0 <= tab < self.count() {
            TabSetModel {
                buttons: self.buttons.update(
                    tab,
                    TabButton {
                        shade: Self::tab_hover_shade(
                            interaction,
                            self.buttons[tab].active,
                            self.buttons[tab].shade,
                        ),
                        ..self.buttons[tab]
                    },
                ),
                ..self
            }
        } else {
            self
        }
    }
}

/// After any selection exactly one tab is active and exactly one content
/// block is shown, and both are the same tab. Where the index selected
/// names a tab of the set, it is that tab; where it names none, the set is
/// as it was.
pub proof fn lemma_selection_exclusive(tabs: TabSetModel, tab: int)
    requires
        tabs.wf(),
    ensures
        tabs.select(tab).wf(),
        tabs.select(tab).count() == tabs.count(),
        tabs.select(tab).active_tabs().len() == 1,
        tabs.select(tab).visible_contents().len() == 1,
        tabs.select(tab).active_tabs() == set![tabs.select(tab).selected()],
        tabs.select(tab).visible_contents() == set![tabs.select(tab).selected()],
        0 <= tab < tabs.count() ==> tabs.select(tab).selects(tab) && tabs.select(tab).selected()
            == tab,
        !(0 <= tab < tabs.count()) ==> tabs.select(tab) == tabs,
{
    let after = tabs.select(tab);
    if 0 <= tab < tabs.count() {
        assert(after.selects(tab));
        lemma_selected_unique(after, tab);
    }
    lemma_one_selected(after);
}

/// In any well-formed set exactly one tab is active and exactly one content
/// block is shown: the selected one.
pub proof fn lemma_one_selected(tabs: TabSetModel)
    requires
        tabs.wf(),
    ensures
        tabs.selects(tabs.selected()),
        tabs.active_tabs() == set![tabs.selected()],
        tabs.visible_contents() == set![tabs.selected()],
        tabs.active_tabs().len() == 1,
        tabs.visible_contents().len() == 1,
{
    let tab = tabs.selected();
    assert(tabs.active_tabs() =~= set![tab]);
    assert(tabs.visible_contents() =~= set![tab]);
}

/// No two tabs can be selected at once.
pub proof fn lemma_selected_unique(tabs: TabSetModel, tab: int)
    requires
        tabs.selects(tab),
    ensures
        tabs.selected() == tab,
        forall|other: int| tabs.selects(other) ==> other == tab,
{
    assert forall|other: int| tabs.selects(other) implies other == tab by {
        assert(tabs.buttons[other].active == (other == tab));
    }
}

/// Selecting is idempotent, and selecting what is no tab changes nothing.
pub proof fn lemma_select_idempotent(tabs: TabSetModel, tab: int)
    requires
        tabs.indexed(),
    ensures
        tabs.select(tab).select(tab) == tabs.select(tab),
        !(0 <= tab < tabs.count()) ==> tabs.select(tab) == tabs,
{
    if 0 <= tab < tabs.count() {
        let once = tabs.select(tab);
        let twice = once.select(tab);
        assert(twice.buttons =~= once.buttons);
        assert(twice.contents =~= once.contents);
    }
}

/// Hovering over a tab keeps the selection as it is.
pub proof fn lemma_hover_keeps_selection(tabs: TabSetModel, tab: int, interaction: Interaction)
    requires
        tabs.wf(),
    ensures
        tabs.hover(tab, interaction).wf(),
        tabs.hover(tab, interaction).selected() == tabs.selected(),
{
    let after = tabs.hover(tab, interaction);
    let chosen = tabs.selected();
    assert(after.selects(chosen)) by {
        assert forall|k: int| 0 <= k < after.buttons.len() implies (#[trigger] after.buttons[
            k
        ]).active == (k == chosen) by {
            assert(tabs.buttons[k].active == (k == chosen));
        }
    }
    assert(after.indexed()) by {
        assert forall|k: int| 0 <= k < after.buttons.len() implies (#[trigger] after.buttons[
            k
        ]).tab_index == k by {
            assert(tabs.buttons[k].tab_index == k);
        }
    }
    lemma_selected_unique(after, chosen);
}

/// A set of tabs with exactly one of them selected.
#[derive(Debug)]
pub struct TabSet {
    buttons: Vec<TabButton>,
    contents: Vec<TabContent>,
}

impl View for TabSet {
    type V = TabSetModel;

    closed spec fn view(&self) -> TabSetModel {
        TabSetModel { buttons: self.buttons@, contents: self.contents@ }
    }
}

impl TabSet {
    /// Whether the set is in order and has exactly one tab selected. Every
    /// set that this module hands out is.
    pub open spec fn wf(&self) -> bool {
        self@.wf()
    }

    /// A set of `count` tabs with the first one selected. There is no set
    /// without tabs.
    pub fn new(count: usize) -> (tabs: Option<TabSet>)
        ensures
            tabs is Some <==> count > 0,
            tabs matches Some(set) ==> set.wf() && set@ == TabSetModel::fresh(count as nat)
                && set@.selected() == 0,
    {
        if count == 0 {
            None
        } else {
            Some(TabSet::with_first_selected(count))
        }
    }

    /// A set of `count` tabs with the first one selected.
    fn with_first_selected(count: usize) -> (set: TabSet)
        requires
            count > 0,
        ensures
            set.wf(),
            set@ == TabSetModel::fresh(count as nat),
            set@.selected() == 0,
    {
        let mut buttons: Vec<TabButton> = Vec::new();
        let mut contents: Vec<TabContent> = Vec::new();
        let mut index: usize = 0;
        while index < count
            invariant
                index <= count,
                buttons@.len() == index,
                contents@.len() == index,
                forall|k: int|
                    0 <= k < index ==> #[trigger] buttons@[k] == (TabButton {
                        tab_index: k as usize,
                        active: k == 0,
                        shade: ButtonShade::Normal,
                    }),
                forall|k: int|
                    0 <= k < index ==> #[trigger] contents@[k] == (TabContent {
                        tab_index: k as usize,
                        visible: k == 0,
                    }),
            decreases count - index,
        {
            buttons.push(
                TabButton { tab_index: index, active: index == 0, shade: ButtonShade::Normal },
            );
            contents.push(TabContent { tab_index: index, visible: index == 0 });
            index += 1;
        }
        let set = TabSet { buttons, contents };
        proof {
            assert(set@.buttons =~= TabSetModel::fresh(count as nat).buttons);
            assert(set@.contents =~= TabSetModel::fresh(count as nat).contents);
            assert(set@.selects(0));
            lemma_selected_unique(set@, 0);
        }
        set
    }

    /// The number of tabs.
    pub fn len(&self) -> (count: usize)
        ensures
            count == self@.count(),
    {
        self.buttons.len()
    }

    /// The button of tab `tab`.
    pub fn button(&self, tab: usize) -> (button: Option<TabButton>)
        ensures
            button is Some <==> tab < self@.count(),
            button matches Some(b) ==> b == self@.buttons[tab as int],
    {
        if tab < self.buttons.len() {
            Some(self.buttons[tab])
        } else {
            None
        }
    }

    /// The content block of tab `tab`.
    pub fn content(&self, tab: usize) -> (content: Option<TabContent>)
        ensures
            content is Some <==> tab < self@.contents.len(),
            content matches Some(c) ==> c == self@.contents[tab as int],
    {
        if tab < self.contents.len() {
            Some(self.contents[tab])
        } else {
            None
        }
    }

    /// The selected tab.
    pub fn selected(&self) -> (tab: usize)
        requires
            self.wf(),
        ensures
            tab == self@.selected(),
            self@.selects(tab as int),
    {
        let ghost chosen = self@.selected();
        let count = self.buttons.len();
        let mut index: usize = 0;
        while !self.buttons[index].active
            invariant
                self@.selects(chosen),
                index <= chosen < count,
                count == self.buttons@.len(),
            decreases chosen - index,
        {
            assert(self@.buttons[index as int].active == (index as int == chosen));
            index += 1;
        }
        assert(self@.buttons[index as int].active == (index as int == chosen));
        index
    }

    /// Selects `tab`: every other tab loses the selection, `tab` gains it,
    /// its content alone is shown, and every button is recoloured to match.
    /// An index that is no tab of the set selects nothing and changes
    /// nothing; the result says whether anything was selected.
    pub fn select_tab(&mut self, tab: usize) -> (selected: bool)
        requires
            old(self).wf(),
        ensures
            final(self).wf(),
            final(self)@ == old(self)@.select(tab as int),
            selected == (tab < old(self)@.count()),
            selected ==> final(self)@.selected() == tab && final(self)@.active_tabs() == set![
                tab as int,
            ] && final(self)@.visible_contents() == set![tab as int],
    {
        let count = self.buttons.len();
        if tab >= count {
            return false;
        }
        let ghost before = self@;
        let mut index: usize = 0;
        while index < count
            invariant
                index <= count,
                count == before.buttons.len(),
                before.indexed(),
                self.contents@ == before.contents,
                self.buttons@.len() == count,
                forall|k: int|
                    0 <= k < index ==> #[trigger] self.buttons@[k] == before.select(
                        tab as int,
                    ).buttons[k],
                forall|k: int|
                    index <= k < count ==> #[trigger] self.buttons@[k] == before.buttons[k],
                tab < count,
            decreases count - index,
        {
            let button = self.buttons[index];
            let chosen = button.tab_index == tab;
            assert(before.buttons[index as int].tab_index == index);
            self.buttons.set(
                index,
                TabButton {
                    tab_index: button.tab_index,
                    active: chosen,
                    shade: if chosen {
                        ButtonShade::Active
                    } else {
                        ButtonShade::Normal
                    },
                },
            );
            index += 1;
        }
        let blocks = self.contents.len();
        let mut index: usize = 0;
        while index < blocks
            invariant
                index <= blocks,
                blocks == before.contents.len(),
                blocks == count,
                before.indexed(),
                self.buttons@ == before.select(tab as int).buttons,
                self.contents@.len() == blocks,
                forall|k: int|
                    0 <= k < index ==> #[trigger] self.contents@[k] == before.select(
                        tab as int,
                    ).contents[k],
                forall|k: int|
                    index <= k < blocks ==> #[trigger] self.contents@[k] == before.contents[k],
                tab < count,
            decreases blocks - index,
        {
            let block = self.contents[index];
            assert(before.contents[index as int].tab_index == index);
            self.contents.set(
                index,
                TabContent { tab_index: block.tab_index, visible: block.tab_index == tab },
            );
            index += 1;
        }
        proof {
            assert(self@.contents =~= before.select(tab as int).contents);
            lemma_selection_exclusive(before, tab as int);
            lemma_selected_unique(self@, tab as int);
        }
        true
    }

    /// Recolours the button of `tab` for a changed interaction. Nothing
    /// else changes, and an index that is no tab changes nothing.
    pub fn hover_tab(&mut self, tab: usize, interaction: Interaction)
        requires
            old(self).wf(),
        ensures
            final(self).wf(),
            final(self)@ == old(self)@.hover(tab as int, interaction),
            final(self)@.selected() == old(self)@.selected(),
    {
        proof {
            lemma_hover_keeps_selection(self@, tab as int, interaction);
        }
        if tab < self.buttons.len() {
            let button = self.buttons[tab];
            let shade = match interaction {
                Interaction::Hovered => if button.active {
                    ButtonShade::ActiveHovered
                } else {
                    ButtonShade::Hovered
                },
                Interaction::Idle => if button.active {
                    ButtonShade::Active
                } else {
                    ButtonShade::Normal
                },
                Interaction::Pressed => button.shade,
            };
            self.buttons.set(
                tab,
                TabButton { tab_index: button.tab_index, active: button.active, shade },
            );
        }
    }
}

/// The button of a tab under the pointer: recoloured as `hover_tab` says.
pub fn handle_tab_button_hover(interaction: Interaction, tab: usize, tabs: &mut TabSet)
    requires
        old(tabs).wf(),
    ensures
        final(tabs).wf(),
        final(tabs)@ == old(tabs)@.hover(tab as int, interaction),
        final(tabs)@.selected() == old(tabs)@.selected(),
{
    tabs.hover_tab(tab, interaction);
}

/// A button of the settings menu that is no tab, under the pointer.
pub fn handle_regular_button_hover(interaction: Interaction, shade: &mut ButtonShade)
    ensures
        *final(shade) == hover_shade(interaction, *old(shade)),
{
    match interaction {
        Interaction::Hovered => {
            *shade = ButtonShade::Hovered;
        },
        Interaction::Idle => {
            *shade = ButtonShade::Normal;
        },
        Interaction::Pressed => {},
    }
}

/// The button of a tab, pressed: the tab is selected. Any other
/// interaction changes nothing.
pub fn handle_tab_buttons(interaction: Interaction, pressed_tab: usize, tabs: &mut TabSet)
    requires
        old(tabs).wf(),
    ensures
        final(tabs).wf(),
        interaction == Interaction::Pressed ==> final(tabs)@ == old(tabs)@.select(
            pressed_tab as int,
        ),
        interaction != Interaction::Pressed ==> final(tabs)@ == old(tabs)@,
{
    if interaction == Interaction::Pressed {
        tabs.select_tab(pressed_tab);
    }
}

/// Number of tabs of the settings menu.
pub const SETTINGS_TAB_COUNT: usize = 3;

/// The settings menu as it is put on screen.
#[derive(Debug)]
pub struct SettingsMenu {
    /// The heading.
    pub title: String,
    /// The texts on the tab buttons, in the order of the tabs.
    pub tab_labels: Vec<String>,
    /// The tabs and which of them is selected.
    pub tabs: TabSet,
    /// The content of the first tab.
    pub display: DisplaySettingsUi,
    /// The content of the second tab.
    pub audio: AudioSettings,
    /// The content of the third tab.
    pub controls: ControlsSettings,
}

impl SettingsMenu {
    /// Whether the menu has its heading, its three tabs by name, and
    /// exactly one of them selected.
    pub open spec fn wf(self) -> bool {
        &&& self.title@ == "Settings"@
        &&& self.tab_labels@.len() == SETTINGS_TAB_COUNT
        &&& self.tab_labels@[0]@ == "Display"@
        &&& self.tab_labels@[1]@ == "Audio"@
        &&& self.tab_labels@[2]@ == "Controls"@
        &&& self.tabs.wf()
        &&& self.tabs@.count() == SETTINGS_TAB_COUNT
        &&& self.display.has_bottom_buttons()
    }

    /// Whether the menu is the one that entering the settings puts on
    /// screen for `settings`: the display tab selected and showing the
    /// draft, the other two tabs hidden, everything at rest.
    pub open spec fn is_fresh(self, settings: NewDisplaySettings) -> bool {
        &&& self.wf()
        &&& self.tabs@ == TabSetModel::fresh(SETTINGS_TAB_COUNT as nat)
        &&& self.tabs@.selected() == 0
        &&& self.display.shows(settings)
        &&& self.display.at_rest()
        &&& self.audio.is_fresh()
        &&& self.controls.is_fresh()
    }
}

/// The settings menu as entering the settings puts it on screen for
/// `display_settings`.
pub fn setup_settings_menu(display_settings: &NewDisplaySettings) -> (menu: SettingsMenu)
    ensures
        menu.is_fresh(*display_settings),
{
    let mut tab_labels: Vec<String> = Vec::new();
    tab_labels.push(String::from_str("Display"));
    tab_labels.push(String::from_str("Audio"));
    tab_labels.push(String::from_str("Controls"));
    let tabs = TabSet::with_first_selected(SETTINGS_TAB_COUNT);
    SettingsMenu {
        title: String::from_str("Settings"),
        tab_labels,
        tabs,
        display: setup_display_settings(display_settings),
        audio: setup_audio_settings(),
        controls: setup_controls_settings(),
    }
}

/// The buttons of the settings menu.
#[derive(Clone, Copy, Debug, PartialEq, Eq, Hash, Structural)]
pub enum SettingsMenuButton {
    /// The button of the tab with the given index.
    Tab(usize),
    /// A button of the display settings.
    Display(DisplaySettingsButton),
    /// A button of the audio settings.
    Audio(AudioSettingsButton),
    /// A button of the controls settings.
    Controls(ControlsSettingsButton),
}

impl SettingsMenuButton {
    /// The button of the display settings that `self` is, if it is one.
    pub open spec fn display_button(self) -> Option<DisplaySettingsButton> {
        match self {
            SettingsMenuButton::Display(button) => Some(button),
            _ => None,
        }
    }
}

impl SettingsMenu {
    /// The shade that `button` shows, if the menu has that button.
    pub open spec fn spec_shade_of(self, button: SettingsMenuButton) -> Option<ButtonShade> {
        match button {
            SettingsMenuButton::Tab(tab) => if tab < self.tabs@.count() {
                Some(self.tabs@.buttons[tab as int].shade)
            } else {
                None
            },
            SettingsMenuButton::Display(b) => Some(self.display.spec_shade_of(b)),
            SettingsMenuButton::Audio(b) => Some(self.audio.spec_shade_of(b)),
            SettingsMenuButton::Controls(b) => Some(self.controls.spec_shade_of(b)),
        }
    }

    /// The shade that `button` shows, if the menu has that button.
    pub fn shade_of(&self, button: SettingsMenuButton) -> (shade: Option<ButtonShade>)
        ensures
            shade == self.spec_shade_of(button),
    {
        match button {
            SettingsMenuButton::Tab(tab) => match self.tabs.button(tab) {
                Some(button) => Some(button.shade),
                None => None,
            },
            SettingsMenuButton::Display(b) => Some(self.display.shade_of(b)),
            SettingsMenuButton::Audio(b) => Some(self.audio.shade_of(b)),
            SettingsMenuButton::Controls(b) => Some(self.controls.shade_of(b)),
        }
    }

    /// Whether `after` is the menu as one tick keeps it while the settings
    /// stay on screen: the shown values of the display settings are those
    /// of `settings` if a notice waited, and nothing else changes.
    pub open spec fn kept(
        self,
        had_notice: bool,
        settings: NewDisplaySettings,
        after: SettingsMenu,
    ) -> bool {
        &&& after.title == self.title
        &&& after.tab_labels == self.tab_labels
        &&& after.tabs == self.tabs
        &&& after.audio == self.audio
        &&& after.controls == self.controls
        &&& if had_notice {
            self.display.refreshed(settings, after.display)
        } else {
            after.display == self.display
        }
    }

    /// The tabs after `interaction` has met `button`: a press on a tab
    /// selects it, any other interaction with a tab recolours its button,
    /// and no other button touches the tabs.
    pub open spec fn tabs_after(
        self,
        button: SettingsMenuButton,
        interaction: Interaction,
    ) -> TabSetModel {
        match button {
            SettingsMenuButton::Tab(tab) => if interaction == Interaction::Pressed {
                self.tabs@.select(tab as int)
            } else {
                self.tabs@.hover(tab as int, interaction)
            },
            _ => self.tabs@,
        }
    }

    /// Whether `after` is the menu after `interaction` has met `button`:
    /// the tabs are as `tabs_after` says, the button is recoloured where it
    /// is no tab, and nothing else on screen changes.
    pub open spec fn interacted(
        self,
        button: SettingsMenuButton,
        interaction: Interaction,
        after: SettingsMenu,
    ) -> bool {
        &&& after.title == self.title
        &&& after.tab_labels == self.tab_labels
        &&& after.tabs@ == self.tabs_after(button, interaction)
        &&& after.display == match button {
            SettingsMenuButton::Display(b) => self.display.shaded_by(b, interaction),
            _ => self.display,
        }
        &&& after.audio == match button {
            SettingsMenuButton::Audio(b) => self.audio.hovered(b, interaction),
            _ => self.audio,
        }
        &&& after.controls == match button {
            SettingsMenuButton::Controls(b) => self.controls.hovered(b, interaction),
            _ => self.controls,
        }
    }
}

/// One interaction with a button of the settings menu. A tab is selected
/// or recoloured; a button of the display settings is recoloured and, when
/// pressed, does what it stands for; the buttons of the other two surfaces
/// are recoloured and do nothing.
pub fn handle_settings_menu_button(
    button: SettingsMenuButton,
    interaction: Interaction,
    menu: &mut SettingsMenu,
    display_settings: &mut NewDisplaySettings,
    events: &mut DisplaySettingsEvents,
    window: &mut Option<WindowConfig>,
    render_resolution: &mut GameRenderResolution,
    next_state: &mut StateStore<AppState>,
    next_overlay_state: &mut StateStore<GameOverlayState>,
)
    requires
        old(menu).tabs.wf(),
    ensures
        final(menu).tabs.wf(),
        old(menu).interacted(button, interaction, *final(menu)),
        *final(display_settings) == match button.display_button() {
            Some(b) => old(display_settings).after_button(b, interaction),
            None => *old(display_settings),
        },
        final(events)@ == match button.display_button() {
            Some(b) => old(events)@ + notices_for(b, interaction),
            None => old(events)@,
        },
        *final(window) == match button.display_button() {
            Some(b) => old(display_settings).window_after(b, interaction, *old(window)),
            None => *old(window),
        },
        *final(render_resolution) == match button.display_button() {
            Some(b) => old(display_settings).render_resolution_after(
                b,
                interaction,
                *old(window),
                *old(render_resolution),
            ),
            None => *old(render_resolution),
        },
        final(next_state)@ == match button.display_button() {
            Some(b) => app_after_button(old(next_state)@, b, interaction),
            None => old(next_state)@,
        },
        final(next_overlay_state)@ == match button.display_button() {
            Some(b) => overlay_after_button(
                old(next_state)@,
                old(next_overlay_state)@,
                b,
                interaction,
            ),
            None => old(next_overlay_state)@,
        },
{
    match button {
        SettingsMenuButton::Tab(tab) => {
            handle_tab_button_hover(interaction, tab, &mut menu.tabs);
            handle_tab_buttons(interaction, tab, &mut menu.tabs);
            proof {
                if interaction == Interaction::Pressed {
                    let before = old(menu).tabs@;
                    assert(before.hover(tab as int, interaction).buttons =~= before.buttons);
                }
            }
        },
        SettingsMenuButton::Display(b) => {
            handle_display_settings_button(
                b,
                interaction,
                &mut menu.display,
                display_settings,
                events,
                window,
                render_resolution,
                next_state,
                next_overlay_state,
            );
        },
        SettingsMenuButton::Audio(b) => {
            menu.audio.hover(b, interaction);
        },
        SettingsMenuButton::Controls(b) => {
            menu.controls.hover(b, interaction);
        },
    }
}

} // verus!
