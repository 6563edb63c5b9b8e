//! The application: the screen that is up, and whether the program goes on.

use crate::components::MenuView;
use crate::input::{InputEvent, KeyCode};
use crate::render::{RegionView, RenderDescription};
use crate::screens::end::{end_regions, EndState};
use crate::screens::game::{GameState, GameView};
use crate::screens::home::HomeState;
use crate::screens::settings::SettingsState;
use crate::screens::{home, settings};
use crate::traits::{EventHandler, FrameRenderer, MessageView, ScreenMessage};
use vstd::prelude::*;

verus! {

/// The application.  It runs until `exit` is set.
pub struct App {
    pub state: GlobalState,
    pub exit: bool,
}

/// What the application holds besides the exit flag.
pub struct GlobalState {
    pub screen: Screen,
}

/// The screen that is up.  Home leads to Settings, Settings to Game or back to
/// Home, Game to End.
pub enum Screen {
    Home(HomeState),
    Settings(SettingsState),
    Game(GameState),
    End(EndState),
}

/// The model of a [`Screen`].
pub enum ScreenView {
    Home(MenuView<home::ButtonAction>),
    Settings(MenuView<settings::ButtonAction>),
    Game(GameView),
    End(GameView),
}

impl View for Screen {
    type V = ScreenView;

    open spec fn view(&self) -> ScreenView {
        match self {
            Screen::Home(state) => ScreenView::Home(state@),
            Screen::Settings(state) => ScreenView::Settings(state@),
            Screen::Game(state) => ScreenView::Game(state@),
            Screen::End(state) => ScreenView::End(state@),
        }
    }
}

impl ScreenView {
    /// How the screen takes `event`: it becomes `after` and answers `message`.
    /// A screen stays the kind of screen it is; to bring up another is up to
    /// the application.  The end screen listens to nothing.
    pub open spec fn handles(self, event: InputEvent, after: ScreenView, message: MessageView) -> bool {
        match self {
            ScreenView::Home(before) => after matches ScreenView::Home(state) && HomeState::handles(
                before,
                event,
                state,
                message,
            ),
            ScreenView::Settings(before) => after matches ScreenView::Settings(state)
                && SettingsState::handles(before, event, state, message),
            ScreenView::Game(before) => after matches ScreenView::Game(state) && before.handles(
                event,
                state,
                message,
            ),
            ScreenView::End(before) => after == self && message is Noop,
        }
    }

    /// The picture of the screen.
    pub open spec fn regions(self) -> Seq<RegionView> {
        match self {
            ScreenView::Home(state) => state.regions(),
            ScreenView::Settings(state) => state.regions(),
            ScreenView::Game(state) => state.regions(),
            ScreenView::End(state) => end_regions(state),
        }
    }
}

/// The model of the [`App`].
pub struct AppView {
    pub screen: ScreenView,
    pub exit: bool,
}

impl View for App {
    type V = AppView;

    open spec fn view(&self) -> AppView {
        AppView { screen: self.state.screen@, exit: self.exit }
    }
}

impl AppView {
    /// The application as it starts: on the home screen, and running.
    pub open spec fn initial() -> AppView {
        AppView { screen: ScreenView::Home(HomeState::initial()), exit: false }
    }

    /// The application after its screen has become `screen` and has answered
    /// `message`: `Exit` sets the exit flag, `ChangeScreen` brings up the screen
    /// it carries, `Noop` leaves it at that.
    pub open spec fn answered(self, screen: ScreenView, message: MessageView) -> AppView {
        match message {
            MessageView::Exit => AppView { screen, exit: true },
            MessageView::ChangeScreen(next) => AppView { screen: next, exit: self.exit },
            MessageView::Noop => AppView { screen, exit: self.exit },
        }
    }

    /// How the application takes `event`.  The quit key sets the exit flag and
    /// reaches no screen.  Any other event goes to the screen that is up, and
    /// the application does what the screen answers.
    pub open spec fn handles(self, event: InputEvent, after: AppView) -> bool {
        if event.is_quit() {
            after == (AppView { exit: true, ..self })
        } else {
            exists|screen: ScreenView, message: MessageView|
                #[trigger] self.screen.handles(event, screen, message) && after == self.answered(
                    screen,
                    message,
                )
        }
    }
}

impl Default for App {
    fn default() -> (app: Self)
        ensures
            app@ == AppView::initial(),
    {
        App { state: GlobalState { screen: Screen::Home(HomeState::default()) }, exit: false }
    }
}

impl App {
    /// Takes one event: see [`AppView::handles`].
    pub fn handle_events(&mut self, event: InputEvent)
        ensures
            old(self)@.handles(event, final(self)@),
    {
        if let InputEvent::Key(key) = event {
            if key.code == KeyCode::Char('q') {
                self.exit = true;
                return ;
            }
        }
        let message = match &mut self.state.screen {
            Screen::Home(home_state) => home_state.handle_events(event),
            Screen::Settings(settings_state) => settings_state.handle_events(event),
            Screen::Game(game_state) => game_state.handle_events(event),
            Screen::End(end_state) => end_state.handle_events(event),
        };
        let ghost screen = self.state.screen@;
        let ghost answer = message@;
        assert(old(self)@.screen.handles(event, screen, answer));
        match message {
            ScreenMessage::Exit => {
                self.exit = true;
            },
            ScreenMessage::ChangeScreen(next) => {
                self.state.screen = next;
            },
            ScreenMessage::Noop => {},
        }
    }

    /// What is to be drawn: the picture of the screen that is up.
    pub fn render_frame(&self) -> (frame: RenderDescription)
        ensures
            frame@ == self@.screen.regions(),
    {
        match &self.state.screen {
            Screen::Home(home_state) => home_state.render_frame(),
            Screen::Settings(settings_state) => settings_state.render_frame(),
            Screen::Game(game_state) => game_state.render_frame(),
            Screen::End(end_state) => end_state.render_frame(),
        }
    }
}

} // verus!
