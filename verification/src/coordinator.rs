//! How the three state machines depend on each other: the application
//! state leads, the overlay is open only in the game, and the background
//! follows both.

use crate::overlay_state::{
    background_for,
    derived_background,
    settled_overlay,
    GameOverlayState,
    OverlayBackgroundState,
};
use crate::state::StoreModel;
use crate::AppState;
use vstd::prelude::*;

verus! {

/// One thing that can happen to the machines: a request staged by a
/// handler, or the observation point at which the requests take effect.
#[derive(Clone, Copy, Debug, PartialEq, Eq, Hash, Structural)]
pub enum Step {
    /// A request for an application state.
    RequestApp(AppState),
    /// A request for an overlay.
    RequestOverlay(GameOverlayState),
    /// The observation point.
    Tick,
}

/// The three machines as a plain value.
pub ghost struct CoordinatorModel {
    /// The application state.
    pub app: StoreModel<AppState>,
    /// The overlay over the game.
    pub overlay: StoreModel<GameOverlayState>,
    /// The background behind the overlay.
    pub background: StoreModel<OverlayBackgroundState>,
}

impl CoordinatorModel {
    /// The machines at startup: loading, no overlay, a clear background,
    /// nothing staged.
    pub open spec fn initial() -> CoordinatorModel {
        CoordinatorModel {
            app: StoreModel::initial(AppState::Loading),
            overlay: StoreModel::initial(GameOverlayState::Closed),
            background: StoreModel::initial(OverlayBackgroundState::Clear),
        }
    }

    /// Whether the machines agree with each other: outside the game no
    /// overlay is open and the background is clear, the background is
    /// darkened exactly in the game under an open overlay, and nothing is
    /// staged for the background, which only ever follows.
    pub open spec fn consistent(self) -> bool {
        &&& self.app.current != AppState::InGame ==> self.overlay.current
            == GameOverlayState::Closed && self.background.current == OverlayBackgroundState::Clear
        &&& self.background.current == OverlayBackgroundState::Darkened <==> self.app.current
            == AppState::InGame && self.overlay.current != GameOverlayState::Closed
        &&& self.background.staged is None
    }

    /// The machines after `state` has been requested for the application.
    pub open spec fn request_app(self, state: AppState) -> CoordinatorModel {
        CoordinatorModel { app: self.app.request(state), ..self }
    }

    /// The machines after `state` has been requested for the overlay.
    pub open spec fn request_overlay(self, state: GameOverlayState) -> CoordinatorModel {
        CoordinatorModel { overlay: self.overlay.request(state), ..self }
    }

    /// The overlay store as the observation point finds it, once the
    /// application state has been observed as `app`: outside the game a
    /// closed overlay is staged over whatever was asked for.
    pub open spec fn overlay_before_observation(self, app: AppState) -> StoreModel<
        GameOverlayState,
    > {
        if app == AppState::InGame {
            self.overlay
        } else {
            self.overlay.request(GameOverlayState::Closed)
        }
    }

    /// The background store as the observation point finds it, once the
    /// application has been observed as `app` and the overlay as `overlay`:
    /// in the game the background of the overlay is staged, on leaving the
    /// game a clear one, and otherwise nothing.
    pub open spec fn background_before_observation(
        self,
        app: StoreModel<AppState>,
        overlay: GameOverlayState,
    ) -> StoreModel<OverlayBackgroundState> {
        if app.current == AppState::InGame {
            self.background.request(background_for(overlay))
        } else if app.exited(AppState::InGame) {
            self.background.request(OverlayBackgroundState::Clear)
        } else {
            self.background
        }
    }

    /// The machines after an observation point. The application state is
    /// observed first, then the overlay, then the background, each seeing
    /// the ones before it as they now are.
    pub open spec fn tick(self) -> CoordinatorModel {
        let app = self.app.observe();
        let overlay = self.overlay_before_observation(app.current).observe();
        let background = self.background_before_observation(app, overlay.current).observe();
        CoordinatorModel { app, overlay, background }
    }

    /// The machines after `step`.
    pub open spec fn step(self, step: Step) -> CoordinatorModel {
        match step {
            Step::RequestApp(state) => self.request_app(state),
            Step::RequestOverlay(state) => self.request_overlay(state),
            Step::Tick => self.tick(),
        }
    }

    /// The machines after every step of `steps`, in order.
    pub open spec fn run(self, steps: Seq<Step>) -> CoordinatorModel
        decreases steps.len(),
    {
        if steps.len() == 0 {
            self
        } else {
            self.run(steps.drop_last()).step(steps.last())
        }
    }

    /// Whether a settings surface is on screen: the settings menu of the
    /// main menu, or the one over the game.
    pub open spec fn shows_settings(self) -> bool {
        self.app.current == AppState::SettingsMenu || self.overlay.current
            == GameOverlayState::SettingsMenu
    }

    /// Whether the last observation point entered a settings surface, by
    /// either way.
    pub open spec fn entered_settings(self) -> bool {
        self.app.entered(AppState::SettingsMenu) || self.overlay.entered(
            GameOverlayState::SettingsMenu,
        )
    }
}

/// What an observation point does, in terms of what was current and what
/// was asked for: the application state is the one asked for; the overlay
/// is the one asked for in the game and closed anywhere else; the
/// background is darkened if and only if the application is then in the
/// game and an overlay is then open. Nothing stays staged.
pub proof fn lemma_tick(machines: CoordinatorModel)
    requires
        machines.consistent(),
    ensures
        machines.tick().consistent(),
        machines.tick().app.current == machines.app.upcoming(),
        machines.tick().overlay.current == settled_overlay(
            machines.app.upcoming(),
            machines.overlay.upcoming(),
        ),
        machines.tick().background.current == derived_background(
            machines.tick().app.current,
            machines.tick().overlay.current,
        ),
        machines.tick().background.current == OverlayBackgroundState::Darkened <==> (
        machines.tick().app.current == AppState::InGame && machines.tick().overlay.current
            != GameOverlayState::Closed),
        machines.tick().app.staged is None,
        machines.tick().overlay.staged is None,
        machines.tick().app.previous == machines.app.current,
        machines.tick().overlay.previous == machines.overlay.current,
        machines.tick().background.previous == machines.background.current,
{
}

/// The machines agree with each other at startup, and whatever is
/// requested and however often the observation point comes, they agree
/// after every step: outside the game there is never an overlay nor a
/// darkened background, and the background is darkened exactly in the game
/// under an open overlay.
pub proof fn lemma_always_consistent(machines: CoordinatorModel, steps: Seq<Step>)
    requires
        machines.consistent(),
    ensures
        CoordinatorModel::initial().consistent(),
        machines.run(steps).consistent(),
    decreases steps.len(),
{
    if steps.len() > 0 {
        lemma_always_consistent(machines, steps.drop_last());
        lemma_tick(machines.run(steps.drop_last()));
    }
}

/// The steps that request each application state of `requests` in turn.
pub open spec fn app_requests(requests: Seq<AppState>) -> Seq<Step> {
    requests.map_values(|state: AppState| Step::RequestApp(state))
}

/// Of the application states requested before an observation point, the
/// last one is the state after it, wherever the machines were; requests
/// alone change nothing that observers see.
pub proof fn lemma_last_app_request_wins(machines: CoordinatorModel, requests: Seq<AppState>)
    requires
        requests.len() > 0,
    ensures
        machines.run(app_requests(requests)).app.current == machines.app.current,
        machines.run(app_requests(requests)).overlay == machines.overlay,
        machines.run(app_requests(requests)).background == machines.background,
        machines.run(app_requests(requests)).tick().app.current == requests.last(),
    decreases requests.len(),
{
    let steps = app_requests(requests);
    assert(steps.last() == Step::RequestApp(requests.last()));
    assert(steps.drop_last() =~= app_requests(requests.drop_last()));
    if requests.len() > 1 {
        lemma_last_app_request_wins(machines, requests.drop_last());
    } else {
        assert(machines.run(steps.drop_last()) == machines);
    }
}

/// Leaving the game closes the overlay and clears the background at the
/// same observation point, whether or not a handler asked for the overlay
/// to close, and whatever overlay was asked for instead.
pub proof fn lemma_leaving_game_cleans_up(machines: CoordinatorModel)
    requires
        machines.consistent(),
        machines.app.current == AppState::InGame,
        machines.app.upcoming() != AppState::InGame,
    ensures
        machines.tick().app.exited(AppState::InGame),
        machines.tick().overlay.current == GameOverlayState::Closed,
        machines.tick().background.current == OverlayBackgroundState::Clear,
{
}

} // verus!
