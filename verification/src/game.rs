//! The front end as a whole: the three state machines, the display settings
//! draft and what is on screen, moved on by interactions with buttons and by
//! the observation point of every tick.

use crate::camera::GameRenderResolution;
use crate::coordinator::CoordinatorModel;
use crate::menus::game_menu::{
    handle_quit_button,
    handle_quit_to_os_button,
    handle_resume_button,
    handle_settings_button,
    setup_game_menu,
    GameMenu,
    GameMenuButton,
};
use crate::menus::main_menu::{
    handle_external_links,
    handle_main_menu_play_button,
    handle_main_menu_quit_button,
    handle_main_menu_settings_button,
    setup_main_menu,
    MainMenu,
    MainMenuButton,
};
use crate::menus::settings::display_settings::{
    app_after_button,
    load_display_settings,
    notices_for,
    overlay_after_button,
    update_display_settings_text,
    DisplaySettingsEvents,
    NewDisplaySettings,
};
use crate::menus::settings_menu::{
    handle_settings_menu_button,
    setup_settings_menu,
    SettingsMenu,
    SettingsMenuButton,
};
use crate::menus::ui_components::{ButtonShade, Interaction};
use crate::overlay_state::{
    cleanup_overlay_background,
    reset_overlay_background_state,
    spawn_overlay_background,
    update_overlay_background_state,
    GameOverlayState,
    OverlayBackground,
    OverlayBackgroundState,
};
use crate::state::{StateStore, Transition};
use crate::window::WindowConfig;
use crate::AppState;
use vstd::prelude::*;
use vstd::string::StringExecFns;

verus! {

/// A button of the front end, by the menu it belongs to.
#[derive(Clone, Copy, Debug, PartialEq, Eq, Hash, Structural)]
pub enum ButtonId {
    /// A button of the main menu.
    MainMenu(MainMenuButton),
    /// A button of the game menu.
    GameMenu(GameMenuButton),
    /// A button of the settings menu.
    Settings(SettingsMenuButton),
}

/// The edges that one observation point produced, one per machine.
#[derive(Clone, Copy, Debug)]
pub struct Transitions {
    /// The edge of the application state, if it changed.
    pub app: Option<Transition<AppState>>,
    /// The edge of the overlay, if it changed.
    pub overlay: Option<Transition<GameOverlayState>>,
    /// The edge of the background, if it changed.
    pub background: Option<Transition<OverlayBackgroundState>>,
}

impl Transitions {
    /// No edge at all.
    pub open spec fn spec_none() -> Transitions {
        Transitions { app: None, overlay: None, background: None }
    }

    /// The edges that the last observation point of `machines` produced.
    pub open spec fn of(machines: CoordinatorModel) -> Transitions {
        Transitions {
            app: machines.app.edge(),
            overlay: machines.overlay.edge(),
            background: machines.background.edge(),
        }
    }
}

/// The front end as a plain value.
pub ghost struct GameModel {
    /// The three state machines.
    pub states: CoordinatorModel,
    /// The display settings draft.
    pub display_settings: NewDisplaySettings,
    /// The number of change notices that wait to be read.
    pub notices: nat,
    /// The resolution that the game is rendered for.
    pub render_resolution: GameRenderResolution,
    /// The sheets that dim the game.
    pub backgrounds: Seq<OverlayBackground>,
    /// The main menu, while it is on screen.
    pub main_menu: Option<MainMenu>,
    /// The game menu, while it is on screen.
    pub game_menu: Option<GameMenu>,
    /// The settings menu, while it is on screen.
    pub settings_menu: Option<SettingsMenu>,
    /// Whether the entities of the running game exist.
    pub in_play: bool,
    /// Whether the application has been asked to end.
    pub exit_requested: bool,
}

impl GameModel {
    /// Whether what is on screen agrees with the machines, and the machines
    /// with each other: each menu is on screen exactly in its state, the
    /// game's entities exist exactly in the game, and exactly one sheet dims
    /// the game while the background is darkened and none otherwise.
    pub open spec fn wf(self) -> bool {
        &&& self.states.consistent()
        &&& self.backgrounds == if self.states.background.current
            == OverlayBackgroundState::Darkened {
            seq![OverlayBackground::spec_sheet()]
        } else {
            Seq::<OverlayBackground>::empty()
        }
        &&& self.main_menu is Some <==> self.states.app.current == AppState::MainMenu
        &&& self.game_menu is Some <==> self.states.overlay.current == GameOverlayState::GameMenu
        &&& self.settings_menu is Some <==> self.states.shows_settings()
        &&& self.settings_menu matches Some(menu) ==> menu.wf()
        &&& self.in_play <==> self.states.app.current == AppState::InGame
    }

    /// Whether `button` is on screen and still listened to: its menu is
    /// shown and the application has not been asked to end.
    pub open spec fn listens(self, button: ButtonId) -> bool {
        !self.exit_requested && match button {
            ButtonId::MainMenu(_) => self.main_menu is Some,
            ButtonId::GameMenu(_) => self.game_menu is Some,
            ButtonId::Settings(_) => self.settings_menu is Some,
        }
    }

    /// The machines after a press on `button`: what the button asks for is
    /// staged, and nothing that observers see changes before the next
    /// observation point.
    pub open spec fn states_after_press(self, button: ButtonId) -> CoordinatorModel {
        match button {
            ButtonId::MainMenu(MainMenuButton::Play) => self.states.request_app(AppState::InGame),
            ButtonId::MainMenu(MainMenuButton::Settings) => self.states.request_app(
                AppState::SettingsMenu,
            ),
            ButtonId::GameMenu(GameMenuButton::Resume) => self.states.request_overlay(
                GameOverlayState::Closed,
            ),
            ButtonId::GameMenu(GameMenuButton::Settings) => self.states.request_overlay(
                GameOverlayState::SettingsMenu,
            ),
            ButtonId::GameMenu(GameMenuButton::Quit) => self.states.request_overlay(
                GameOverlayState::Closed,
            ).request_app(AppState::MainMenu),
            ButtonId::Settings(SettingsMenuButton::Display(b)) => CoordinatorModel {
                app: app_after_button(self.states.app, b, Interaction::Pressed),
                overlay: overlay_after_button(
                    self.states.app,
                    self.states.overlay,
                    b,
                    Interaction::Pressed,
                ),
                ..self.states
            },
            _ => self.states,
        }
    }

    /// Whether a press on `button` asks for the application to end.
    pub open spec fn quits(button: ButtonId) -> bool {
        button == ButtonId::MainMenu(MainMenuButton::Quit) || button == ButtonId::GameMenu(
            GameMenuButton::QuitToOs,
        )
    }

    /// The address that `interaction` on `button` asks to open: that of a
    /// footer link of the main menu, when it is pressed.
    pub open spec fn link_for(self, button: ButtonId, interaction: Interaction) -> Option<
        Seq<char>,
    > {
        match (button, self.main_menu) {
            (ButtonId::MainMenu(b), Some(menu)) if self.listens(button) && interaction
                == Interaction::Pressed => menu.link_of(b),
            _ => None,
        }
    }

    /// The window after `interaction` has met `button`: committed to by
    /// the apply button, untouched by anything else.
    pub open spec fn window_after(
        self,
        button: ButtonId,
        interaction: Interaction,
        window: Option<WindowConfig>,
    ) -> Option<WindowConfig> {
        match button {
            ButtonId::Settings(SettingsMenuButton::Display(b)) if self.listens(button) =>
                self.display_settings.window_after(b, interaction, window),
            _ => window,
        }
    }

    /// Whether `after` is the front end after `interaction` has met
    /// `button`, with `window` as the live window before. A button that is
    /// not listened to changes nothing. Otherwise the button is recoloured,
    /// and a press does what the button stands for: it stages a request,
    /// edits or commits the draft, selects a tab, or asks for the end.
    pub open spec fn interacted(
        self,
        button: ButtonId,
        interaction: Interaction,
        window: Option<WindowConfig>,
        after: GameModel,
    ) -> bool {
        if !self.listens(button) {
            after == self
        } else {
            &&& after.states == if interaction == Interaction::Pressed {
                self.states_after_press(button)
            } else {
                self.states
            }
            &&& after.exit_requested == (interaction == Interaction::Pressed && Self::quits(button))
            &&& after.backgrounds == self.backgrounds
            &&& after.in_play == self.in_play
            &&& after.main_menu == match (button, self.main_menu) {
                (ButtonId::MainMenu(b), Some(menu)) => Some(menu.hovered(b, interaction)),
                _ => self.main_menu,
            }
            &&& after.game_menu == match (button, self.game_menu) {
                (ButtonId::GameMenu(b), Some(menu)) => Some(menu.hovered(b, interaction)),
                _ => self.game_menu,
            }
            &&& match (button, self.settings_menu) {
                (ButtonId::Settings(b), Some(menu)) => {
                    &&& after.settings_menu matches Some(shown)
                    &&& menu.interacted(b, interaction, shown)
                },
                _ => after.settings_menu == self.settings_menu,
            }
            &&& after.display_settings == match button {
                ButtonId::Settings(SettingsMenuButton::Display(b)) =>
                    self.display_settings.after_button(b, interaction),
                _ => self.display_settings,
            }
            &&& after.notices == match button {
                ButtonId::Settings(SettingsMenuButton::Display(b)) => self.notices + notices_for(
                    b,
                    interaction,
                ),
                _ => self.notices,
            }
            &&& after.render_resolution == match button {
                ButtonId::Settings(SettingsMenuButton::Display(b)) =>
                    self.display_settings.render_resolution_after(
                        b,
                        interaction,
                        window,
                        self.render_resolution,
                    ),
                _ => self.render_resolution,
            }
        }
    }

    /// The shade that `button` shows, if it is on screen.
    pub open spec fn shade_of(self, button: ButtonId) -> Option<ButtonShade> {
        match button {
            ButtonId::MainMenu(b) => match self.main_menu {
                Some(menu) => Some(menu.spec_shade_of(b)),
                None => None,
            },
            ButtonId::GameMenu(b) => match self.game_menu {
                Some(menu) => Some(menu.spec_shade_of(b)),
                None => None,
            },
            ButtonId::Settings(b) => match self.settings_menu {
                Some(menu) => menu.spec_shade_of(b),
                None => None,
            },
        }
    }

    /// Whether the next observation point enters a settings surface, and
    /// so reads the live window.
    pub open spec fn opens_settings(self) -> bool {
        !self.exit_requested && self.states.tick().entered_settings()
    }

    /// Whether `after` is the front end after a tick, with `window` as the
    /// live window. First the shown values of the display settings are
    /// brought up to date if a notice waits, and the notices are read. Then
    /// the observation point: the machines move as `CoordinatorModel::tick`
    /// says. Then what is on screen follows the edges: a menu whose state
    /// was left goes, a menu whose state was entered comes fresh, one whose
    /// state stays is kept as it is; the sheet comes and goes with the
    /// darkened background. Entering a settings surface overwrites the
    /// draft with what stands for the live window and sends one notice.
    pub open spec fn ticked(self, window: Option<WindowConfig>, after: GameModel) -> bool {
        let entered = self.states.tick().entered_settings();
        &&& after.states == self.states.tick()
        &&& after.exit_requested == self.exit_requested
        &&& after.render_resolution == self.render_resolution
        &&& after.display_settings == match window {
            Some(live) if entered => self.display_settings.reloaded(live),
            _ => self.display_settings,
        }
        &&& after.notices == if entered {
            1nat
        } else {
            0nat
        }
        &&& if after.states.app.entered(AppState::MainMenu) {
            after.main_menu matches Some(menu) && menu.is_fresh()
        } else if after.states.app.current == AppState::MainMenu {
            after.main_menu == self.main_menu
        } else {
            after.main_menu is None
        }
        &&& if after.states.overlay.entered(GameOverlayState::GameMenu) {
            after.game_menu matches Some(menu) && menu.is_fresh()
        } else if after.states.overlay.current == GameOverlayState::GameMenu {
            after.game_menu == self.game_menu
        } else {
            after.game_menu is None
        }
        &&& if entered {
            after.settings_menu matches Some(menu) && menu.is_fresh(after.display_settings)
        } else if after.states.shows_settings() {
            &&& self.settings_menu matches Some(before)
            &&& after.settings_menu matches Some(menu)
            &&& before.kept(self.notices > 0, self.display_settings, menu)
        } else {
            after.settings_menu is None
        }
    }
}

/// The front end of the game.
pub struct Game {
    app_state: StateStore<AppState>,
    overlay_state: StateStore<GameOverlayState>,
    background_state: StateStore<OverlayBackgroundState>,
    display_settings: NewDisplaySettings,
    settings_events: DisplaySettingsEvents,
    render_resolution: GameRenderResolution,
    backgrounds: Vec<OverlayBackground>,
    main_menu: Option<MainMenu>,
    game_menu: Option<GameMenu>,
    settings_menu: Option<SettingsMenu>,
    in_play: bool,
    exit_requested: bool,
}

impl View for Game {
    type V = GameModel;

    closed spec fn view(&self) -> GameModel {
        GameModel {
            states: CoordinatorModel {
                app: self.app_state@,
                overlay: self.overlay_state@,
                background: self.background_state@,
            },
            display_settings: self.display_settings,
            notices: self.settings_events@,
            render_resolution: self.render_resolution,
            backgrounds: self.backgrounds@,
            main_menu: self.main_menu,
            game_menu: self.game_menu,
            settings_menu: self.settings_menu,
            in_play: self.in_play,
            exit_requested: self.exit_requested,
        }
    }
}

impl Game {
    /// Whether what is on screen agrees with the machines, and the machines
    /// with each other. Every front end that this module hands out does.
    pub open spec fn wf(&self) -> bool {
        self@.wf()
    }

    /// The front end at startup: the application is loading, nothing is on
    /// screen, the draft stands for the live window, and the game is
    /// rendered at the default resolution.
    pub fn new(window: &WindowConfig) -> (game: Game)
        ensures
            game.wf(),
            game@.states == CoordinatorModel::initial(),
            game@.display_settings == NewDisplaySettings::from_live(*window),
            game@.notices == 0,
            game@.render_resolution == (GameRenderResolution { width: 1920, height: 1080 }),
            game@.backgrounds.len() == 0,
            game@.main_menu is None,
            game@.game_menu is None,
            game@.settings_menu is None,
            !game@.in_play,
            !game@.exit_requested,
    {
        Game {
            app_state: StateStore::new(AppState::default()),
            overlay_state: StateStore::new(GameOverlayState::default()),
            background_state: StateStore::new(OverlayBackgroundState::default()),
            display_settings: NewDisplaySettings::new(window),
            settings_events: DisplaySettingsEvents::new(),
            render_resolution: GameRenderResolution::default(),
            backgrounds: Vec::new(),
            main_menu: None,
            game_menu: None,
            settings_menu: None,
            in_play: false,
            exit_requested: false,
        }
    }

    /// The application state that observers see.
    pub fn app_state(&self) -> (state: AppState)
        ensures
            state == self@.states.app.current,
    {
        self.app_state.current()
    }

    /// The overlay that observers see.
    pub fn overlay_state(&self) -> (state: GameOverlayState)
        ensures
            state == self@.states.overlay.current,
    {
        self.overlay_state.current()
    }

    /// The background that observers see.
    pub fn background_state(&self) -> (state: OverlayBackgroundState)
        ensures
            state == self@.states.background.current,
    {
        self.background_state.current()
    }

    /// The display settings draft.
    pub fn display_settings(&self) -> (settings: NewDisplaySettings)
        ensures
            settings == self@.display_settings,
    {
        self.display_settings
    }

    /// Whether a change notice waits to be read.
    pub fn settings_changed(&self) -> (changed: bool)
        ensures
            changed == (self@.notices > 0),
    {
        !self.settings_events.is_empty()
    }

    /// The resolution that the game is rendered for.
    pub fn render_resolution(&self) -> (resolution: GameRenderResolution)
        ensures
            resolution == self@.render_resolution,
    {
        self.render_resolution
    }

    /// The sheets that dim the game.
    pub fn backgrounds(&self) -> (sheets: &Vec<OverlayBackground>)
        ensures
            sheets@ == self@.backgrounds,
    {
        &self.backgrounds
    }

    /// The main menu, while it is on screen.
    pub fn main_menu(&self) -> (menu: &Option<MainMenu>)
        ensures
            *menu == self@.main_menu,
    {
        &self.main_menu
    }

    /// The game menu, while it is on screen.
    pub fn game_menu(&self) -> (menu: &Option<GameMenu>)
        ensures
            *menu == self@.game_menu,
    {
        &self.game_menu
    }

    /// The settings menu, while it is on screen.
    pub fn settings_menu(&self) -> (menu: &Option<SettingsMenu>)
        ensures
            *menu == self@.settings_menu,
    {
        &self.settings_menu
    }

    /// The shade that `button` shows, if it is on screen.
    pub fn shade_of(&self, button: ButtonId) -> (shade: Option<ButtonShade>)
        ensures
            shade == self@.shade_of(button),
    {
        match button {
            ButtonId::MainMenu(b) => match &self.main_menu {
                Some(menu) => Some(menu.shade_of(b)),
                None => None,
            },
            ButtonId::GameMenu(b) => match &self.game_menu {
                Some(menu) => Some(menu.shade_of(b)),
                None => None,
            },
            ButtonId::Settings(b) => match &self.settings_menu {
                Some(menu) => menu.shade_of(b),
                None => None,
            },
        }
    }

    /// Whether the entities of the running game exist.
    pub fn in_play(&self) -> (playing: bool)
        ensures
            playing == self@.in_play,
    {
        self.in_play
    }

    /// Whether the application has been asked to end.
    pub fn exit_requested(&self) -> (requested: bool)
        ensures
            requested == self@.exit_requested,
    {
        self.exit_requested
    }

    /// Stages `state` for the application. It takes effect at the next
    /// tick, unless another request replaces it before.
    pub fn request_app_transition(&mut self, state: AppState)
        requires
            old(self).wf(),
        ensures
            final(self).wf(),
            final(self)@ == (GameModel {
                states: old(self)@.states.request_app(state),
                ..old(self)@
            }),
    {
        self.app_state.request_transition(state);
    }

    /// Stages `state` for the overlay. It takes effect at the next tick,
    /// unless another request replaces it before or the application is
    /// then not in the game.
    pub fn request_overlay_transition(&mut self, state: GameOverlayState)
        requires
            old(self).wf(),
        ensures
            final(self).wf(),
            final(self)@ == (GameModel {
                states: old(self)@.states.request_overlay(state),
                ..old(self)@
            }),
    {
        self.overlay_state.request_transition(state);
    }

    /// Whether the next tick enters a settings surface, and so needs the
    /// live window.
    pub fn opens_settings(&self) -> (opens: bool)
        requires
            self.wf(),
        ensures
            opens == self@.opens_settings(),
    {
        if self.exit_requested {
            return false;
        }
        let app = match self.app_state.staged() {
            Some(state) => state,
            None => self.app_state.current(),
        };
        let asked = match self.overlay_state.staged() {
            Some(state) => state,
            None => self.overlay_state.current(),
        };
        let overlay = match app {
            AppState::InGame => asked,
            _ => GameOverlayState::Closed,
        };
        let enters_menu = app == AppState::SettingsMenu && self.app_state.current()
            != AppState::SettingsMenu;
        let enters_overlay = overlay == GameOverlayState::SettingsMenu
            && self.overlay_state.current() != GameOverlayState::SettingsMenu;
        enters_menu || enters_overlay
    }

    /// One interaction with a button. The result is the address to open in
    /// the browser, when a footer link was pressed.
    pub fn handle_interaction(
        &mut self,
        button: ButtonId,
        interaction: Interaction,
        window: &mut Option<WindowConfig>,
    ) -> (link: Option<String>)
        requires
            old(self).wf(),
        ensures
            final(self).wf(),
            old(self)@.interacted(button, interaction, *old(window), final(self)@),
            *final(window) == old(self)@.window_after(button, interaction, *old(window)),
            link is Some <==> old(self)@.link_for(button, interaction) is Some,
            link matches Some(address) ==> Some(address@) == old(self)@.link_for(
                button,
                interaction,
            ),
    {
        if self.exit_requested {
            return None;
        }
        let mut link: Option<String> = None;
        match button {
            ButtonId::MainMenu(b) => {
                match &mut self.main_menu {
                    Some(menu) => {
                        menu.hover(b, interaction);
                        match b {
                            MainMenuButton::Play => handle_main_menu_play_button(
                                interaction,
                                &mut self.app_state,
                            ),
                            MainMenuButton::Settings => handle_main_menu_settings_button(
                                interaction,
                                &mut self.app_state,
                            ),
                            MainMenuButton::Quit => handle_main_menu_quit_button(
                                interaction,
                                &mut self.exit_requested,
                            ),
                            MainMenuButton::EngineLink => {
                                link =
                                match handle_external_links(interaction, &menu.engine_link) {
                                    Some(address) => Some(String::from_str(address)),
                                    None => None,
                                };
                            },
                            MainMenuButton::SourceLink => {
                                link =
                                match handle_external_links(interaction, &menu.source_link) {
                                    Some(address) => Some(String::from_str(address)),
                                    None => None,
                                };
                            },
                        }
                    },
                    None => {},
                }
            },
            ButtonId::GameMenu(b) => {
                match &mut self.game_menu {
                    Some(menu) => {
                        menu.hover(b, interaction);
                        match b {
                            GameMenuButton::Resume => handle_resume_button(
                                interaction,
                                &mut self.overlay_state,
                            ),
                            GameMenuButton::Settings => handle_settings_button(
                                interaction,
                                &mut self.overlay_state,
                            ),
                            GameMenuButton::Quit => handle_quit_button(
                                interaction,
                                &mut self.app_state,
                                &mut self.overlay_state,
                            ),
                            GameMenuButton::QuitToOs => handle_quit_to_os_button(
                                interaction,
                                &mut self.exit_requested,
                            ),
                        }
                    },
                    None => {},
                }
            },
            ButtonId::Settings(b) => {
                match &mut self.settings_menu {
                    Some(menu) => {
                        handle_settings_menu_button(
                            b,
                            interaction,
                            menu,
                            &mut self.display_settings,
                            &mut self.settings_events,
                            window,
                            &mut self.render_resolution,
                            &mut self.app_state,
                            &mut self.overlay_state,
                        );
                    },
                    None => {},
                }
            },
        }
        link
    }

    /// One tick: the observation point of the three machines, and what
    /// follows from it on screen. `window` is the live window; it is read
    /// only when a settings surface is entered, and must then be there.
    /// The result is the edges that the observation point produced. Once
    /// the application has been asked to end, a tick does nothing.
    pub fn tick(&mut self, window: Option<&WindowConfig>) -> (edges: Transitions)
        requires
            old(self).wf(),
            old(self)@.opens_settings() ==> window is Some,
        ensures
            final(self).wf(),
            old(self)@.exit_requested ==> final(self)@ == old(self)@ && edges
                == Transitions::spec_none(),
            !old(self)@.exit_requested ==> old(self)@.ticked(
                match window {
                    Some(live) => Some(*live),
                    None => None,
                },
                final(self)@,
            ) && edges == Transitions::of(final(self)@.states),
    {
        if self.exit_requested {
            return Transitions { app: None, overlay: None, background: None };
        }
        match &mut self.settings_menu {
            Some(menu) => {
                update_display_settings_text(
                    &mut menu.display,
                    &self.display_settings,
                    &mut self.settings_events,
                );
            },
            None => {
                self.settings_events.read();
            },
        }

        let app = self.app_state.observe();
        if self.app_state.current() != AppState::InGame {
            self.overlay_state.request_transition(GameOverlayState::Closed);
        }
        let overlay = self.overlay_state.observe();
        if self.app_state.current() == AppState::InGame {
            update_overlay_background_state(
                self.overlay_state.current(),
                &mut self.background_state,
            );
        } else if self.app_state.just_exited(AppState::InGame) {
            reset_overlay_background_state(&mut self.background_state);
        }
        let background = self.background_state.observe();

        let enters_settings = self.app_state.just_entered(AppState::SettingsMenu)
            || self.overlay_state.just_entered(GameOverlayState::SettingsMenu);
        let shows_settings = self.app_state.current() == AppState::SettingsMenu
            || self.overlay_state.current() == GameOverlayState::SettingsMenu;

        if self.app_state.just_exited(AppState::MainMenu) {
            self.main_menu = None;
        }
        if self.app_state.just_exited(AppState::InGame) {
            self.in_play = false;
        }
        if !shows_settings || enters_settings {
            self.settings_menu = None;
        }
        if self.overlay_state.just_exited(GameOverlayState::GameMenu) {
            self.game_menu = None;
        }
        if self.background_state.just_exited(OverlayBackgroundState::Darkened) {
            cleanup_overlay_background(&mut self.backgrounds);
        }

        if self.app_state.just_entered(AppState::MainMenu) {
            self.main_menu = Some(setup_main_menu());
        }
        if self.app_state.just_entered(AppState::InGame) {
            self.in_play = true;
        }
        if enters_settings {
            match window {
                Some(live) => {
                    load_display_settings(
                        &mut self.display_settings,
                        live,
                        &mut self.settings_events,
                    );
                },
                None => {},
            }
            self.settings_menu = Some(setup_settings_menu(&self.display_settings));
        }
        if self.overlay_state.just_entered(GameOverlayState::GameMenu) {
            self.game_menu = Some(setup_game_menu());
        }
        if self.background_state.just_entered(OverlayBackgroundState::Darkened) {
            spawn_overlay_background(&mut self.backgrounds);
        }

        Transitions { app, overlay, background }
    }
}

} // verus!
