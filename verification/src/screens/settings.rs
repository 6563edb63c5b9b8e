//! The screen on which the size of the board is chosen.

use crate::app::{Screen, ScreenView};
use crate::components::{
    actions_of, all_mapped, ids_of, labels_of, render_menu, Button, MenuView,
};
use crate::input::{InputEvent, KeyCode};
use crate::render::RenderDescription;
use crate::screens::game::{GameSettings, GameState};
use crate::screens::home::HomeState;
use crate::traits::{EventHandler, FrameRenderer, MessageView, ScreenMessage};
use vstd::hash_map::StringHashMap;
use vstd::prelude::*;
use vstd::string::StringExecFns;

verus! {

/// What an entry of the settings menu does.
#[derive(Clone, Copy)]
pub enum ButtonAction {
    /// Start a game with these settings.
    StartGame(GameSettings),
    /// Go back to the home screen.
    Back,
    /// Nothing.
    Noop,
}

/// The settings screen: a menu of board sizes, and a way back.
pub struct SettingsState {
    selected_button: u8,
    menu_buttons: Vec<Button>,
    // Keys are the button IDs.
    action_map: StringHashMap<ButtonAction>,
}

impl View for SettingsState {
    type V = MenuView<ButtonAction>;

    closed spec fn view(&self) -> MenuView<ButtonAction> {
        MenuView {
            selected: self.selected_button as int,
            ids: ids_of(self.menu_buttons@),
            labels: labels_of(self.menu_buttons@),
            actions: actions_of(self.menu_buttons@, self.action_map@),
        }
    }
}

impl SettingsState {
    #[verifier::type_invariant]
    spec fn inv(self) -> bool {
        self@.wf() && all_mapped(self.menu_buttons@, self.action_map@)
    }

    /// The settings screen as it opens: boards of five and of ten rows, and
    /// `Back`, the first selected.
    pub open spec fn initial() -> MenuView<ButtonAction> {
        MenuView {
            selected: 0,
            ids: seq!["5by5"@, "10by10"@, "back"@],
            labels: seq!["5x5"@, "10x10"@, "Back"@],
            actions: seq![
                ButtonAction::StartGame(GameSettings { size: 5 }),
                ButtonAction::StartGame(GameSettings { size: 10 }),
                ButtonAction::Back,
            ],
        }
    }

    /// Whether `message` is what the screen may answer when an entry with
    /// `action` is activated.  A game that is started is new, with the
    /// settings of the entry; its solution is not laid down.  Settings for a
    /// board without cells are refused: no game is started.
    pub open spec fn answers(action: ButtonAction, message: MessageView) -> bool {
        match action {
            ButtonAction::StartGame(settings) => if settings.size > 0 {
                message matches MessageView::ChangeScreen(ScreenView::Game(game)) && game.is_new(
                    settings,
                )
            } else {
                message is Noop
            },
            ButtonAction::Back => message == MessageView::ChangeScreen(
                ScreenView::Home(HomeState::initial()),
            ),
            ButtonAction::Noop => message is Noop,
        }
    }

    /// How the settings screen takes `event`: up and down move the selection,
    /// enter activates the selected entry, and anything else is passed over.
    pub open spec fn handles(
        before: MenuView<ButtonAction>,
        event: InputEvent,
        after: MenuView<ButtonAction>,
        message: MessageView,
    ) -> bool {
        match event.key_down() {
            Some(KeyCode::Up) => after == before.prev() && message is Noop,
            Some(KeyCode::Down) => after == before.next() && message is Noop,
            Some(KeyCode::Enter) => after == before && Self::answers(before.chosen(), message),
            _ => after == before && message is Noop,
        }
    }

    /// The index of the selected entry.
    pub fn selected_button(&self) -> (index: u8)
        ensures
            index == self@.selected,
    {
        self.selected_button
    }

    /// The entries of the menu, from the first to the last.
    pub fn menu_buttons(&self) -> (buttons: &Vec<Button>)
        ensures
            ids_of(buttons@) == self@.ids,
            labels_of(buttons@) == self@.labels,
    {
        &self.menu_buttons
    }

    /// Moves the selection one entry up, unless it is on the first.
    pub fn move_prev_button(&mut self) -> (message: ScreenMessage)
        ensures
            final(self)@ == old(self)@.prev(),
            message@ is Noop,
    {
        proof {
            use_type_invariant(&*self);
        }
        if self.selected_button > 0 {
            self.selected_button = self.selected_button - 1;
        }
        ScreenMessage::Noop
    }

    /// Moves the selection one entry down, unless it is on the last.
    pub fn move_next_button(&mut self) -> (message: ScreenMessage)
        ensures
            final(self)@ == old(self)@.next(),
            message@ is Noop,
    {
        proof {
            use_type_invariant(&*self);
        }
        if (self.selected_button as usize) < self.menu_buttons.len() - 1 {
            self.selected_button = self.selected_button + 1;
        }
        ScreenMessage::Noop
    }

    /// Activates the selected entry.
    pub fn select_button(&mut self) -> (message: ScreenMessage)
        ensures
            final(self)@ == old(self)@,
            Self::answers(old(self)@.chosen(), message@),
    {
        proof {
            use_type_invariant(&*self);
        }
        let button = &self.menu_buttons[self.selected_button as usize];
        match self.action_map.get(button.id.as_str()) {
            Some(ButtonAction::StartGame(settings)) => {
                if settings.size > 0 {
                    ScreenMessage::ChangeScreen(Screen::Game(GameState::from(*settings)))
                } else {
                    ScreenMessage::Noop
                }
            },
            Some(ButtonAction::Back) => ScreenMessage::ChangeScreen(
                Screen::Home(HomeState::default()),
            ),
            Some(ButtonAction::Noop) => ScreenMessage::Noop,
            // Every button has an action, so this is never taken.
            None => ScreenMessage::Noop,
        }
    }
}

impl Default for SettingsState {
    fn default() -> (state: Self)
        ensures
            state@ == SettingsState::initial(),
    {
        let five_button = Button::new(String::from_str("5by5"), String::from_str("5x5"));
        let ten_button = Button::new(String::from_str("10by10"), String::from_str("10x10"));
        let back_button = Button::new(String::from_str("back"), String::from_str("Back"));
        let mut menu_buttons: Vec<Button> = Vec::new();
        menu_buttons.push(five_button);
        menu_buttons.push(ten_button);
        menu_buttons.push(back_button);
        let mut action_map: StringHashMap<ButtonAction> = StringHashMap::new();
        action_map.insert(
            String::from_str("5by5"),
            ButtonAction::StartGame(GameSettings { size: 5 }),
        );
        action_map.insert(
            String::from_str("10by10"),
            ButtonAction::StartGame(GameSettings { size: 10 }),
        );
        action_map.insert(String::from_str("back"), ButtonAction::Back);
        proof {
            reveal_strlit("5by5");
            reveal_strlit("10by10");
            reveal_strlit("back");
            assert("5by5"@[0] != "back"@[0]);
        }
        assert(ids_of(menu_buttons@) =~= seq!["5by5"@, "10by10"@, "back"@]);
        assert(labels_of(menu_buttons@) =~= seq!["5x5"@, "10x10"@, "Back"@]);
        assert(actions_of(menu_buttons@, action_map@) =~= seq![
            ButtonAction::StartGame(GameSettings { size: 5 }),
            ButtonAction::StartGame(GameSettings { size: 10 }),
            ButtonAction::Back,
        ]);
        SettingsState { selected_button: 0, menu_buttons, action_map }
    }
}

impl EventHandler for SettingsState {
    fn handle_events(&mut self, event: InputEvent) -> (message: ScreenMessage)
        ensures
            SettingsState::handles(old(self)@, event, final(self)@, message@),
    {
        match event.pressed() {
            Some(KeyCode::Up) => self.move_prev_button(),
            Some(KeyCode::Down) => self.move_next_button(),
            Some(KeyCode::Enter) => self.select_button(),
            _ => ScreenMessage::Noop,
        }
    }
}

impl FrameRenderer for SettingsState {
    fn render_frame(&self) -> (frame: RenderDescription)
        ensures
            frame@ == self@.regions(),
    {
        render_menu(&self.menu_buttons, self.selected_button)
    }
}

} // verus!
