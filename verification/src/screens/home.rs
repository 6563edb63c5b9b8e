//! The screen that the program opens on.

use crate::app::{Screen, ScreenView};
use crate::components::{
    actions_of, all_mapped, ids_of, labels_of, render_menu, Button, MenuView,
};
use crate::input::{InputEvent, KeyCode};
use crate::render::RenderDescription;
use crate::screens::settings::SettingsState;
use crate::traits::{EventHandler, FrameRenderer, MessageView, ScreenMessage};
use vstd::hash_map::StringHashMap;
use vstd::prelude::*;
use vstd::string::StringExecFns;

verus! {

/// What an entry of the home menu does.
#[derive(Clone, Copy, PartialEq, Eq, Structural, Debug)]
pub enum ButtonAction {
    /// Go on to the settings.
    StartGame,
    /// End the program.
    Quit,
    /// Nothing.
    Noop,
}

/// The home screen: a menu to play or to quit.
pub struct HomeState {
    selected_button: u8,
    menu_buttons: Vec<Button>,
    // Keys are the button IDs.
    action_map: StringHashMap<ButtonAction>,
}

impl View for HomeState {
    type V = MenuView<ButtonAction>;

    closed spec fn view(&self) -> MenuView<ButtonAction> {
        MenuView {
            selected: self.selected_button as int,
            ids: ids_of(self.menu_buttons@),
            labels: labels_of(self.menu_buttons@),
            actions: actions_of(self.menu_buttons@, self.action_map@),
        }
    }
}

impl HomeState {
    #[verifier::type_invariant]
    spec fn inv(self) -> bool {
        self@.wf() && all_mapped(self.menu_buttons@, self.action_map@)
    }

    /// The home screen as it opens: `Play!` and `Quit!`, the first selected.
    pub open spec fn initial() -> MenuView<ButtonAction> {
        MenuView {
            selected: 0,
            ids: seq!["play_button"@, "quit_button"@],
            labels: seq!["Play!"@, "Quit!"@],
            actions: seq![ButtonAction::StartGame, ButtonAction::Quit],
        }
    }

    /// What the screen answers when an entry with `action` is activated.
    pub open spec fn answer(action: ButtonAction) -> MessageView {
        match action {
            ButtonAction::StartGame => MessageView::ChangeScreen(
                ScreenView::Settings(SettingsState::initial()),
            ),
            ButtonAction::Quit => MessageView::Exit,
            ButtonAction::Noop => MessageView::Noop,
        }
    }

    /// How the home screen takes `event`: up and down move the selection,
    /// enter activates the selected entry, and anything else is passed over.
    pub open spec fn handles(
        before: MenuView<ButtonAction>,
        event: InputEvent,
        after: MenuView<ButtonAction>,
        message: MessageView,
    ) -> bool {
        match event.key_down() {
            Some(KeyCode::Up) => after == before.prev() && message is Noop,
            Some(KeyCode::Down) => after == before.next() && message is Noop,
            Some(KeyCode::Enter) => after == before && message == Self::answer(before.chosen()),
            _ => after == before && message is Noop,
        }
    }

    /// The index of the selected entry.
    pub fn selected_button(&self) -> (index: u8)
        ensures
            index == self@.selected,
    {
        self.selected_button
    }

    /// The entries of the menu, from the first to the last.
    pub fn menu_buttons(&self) -> (buttons: &Vec<Button>)
        ensures
            ids_of(buttons@) == self@.ids,
            labels_of(buttons@) == self@.labels,
    {
        &self.menu_buttons
    }

    /// Moves the selection one entry up, unless it is on the first.
    pub fn move_prev_button(&mut self) -> (message: ScreenMessage)
        ensures
            final(self)@ == old(self)@.prev(),
            message@ is Noop,
    {
        proof {
            use_type_invariant(&*self);
        }
        if self.selected_button > 0 {
            self.selected_button = self.selected_button - 1;
        }
        ScreenMessage::Noop
    }

    /// Moves the selection one entry down, unless it is on the last.
    pub fn move_next_button(&mut self) -> (message: ScreenMessage)
        ensures
            final(self)@ == old(self)@.next(),
            message@ is Noop,
    {
        proof {
            use_type_invariant(&*self);
        }
        if (self.selected_button as usize) < self.menu_buttons.len() - 1 {
            self.selected_button = self.selected_button + 1;
        }
        ScreenMessage::Noop
    }

    /// Activates the selected entry.
    pub fn select_button(&mut self) -> (message: ScreenMessage)
        ensures
            final(self)@ == old(self)@,
            message@ == Self::answer(old(self)@.chosen()),
    {
        proof {
            use_type_invariant(&*self);
        }
        let button = &self.menu_buttons[self.selected_button as usize];
        match self.action_map.get(button.id.as_str()) {
            Some(ButtonAction::StartGame) => ScreenMessage::ChangeScreen(
                Screen::Settings(SettingsState::default()),
            ),
            Some(ButtonAction::Quit) => ScreenMessage::Exit,
            Some(ButtonAction::Noop) => ScreenMessage::Noop,
            // Every button has an action, so this is never taken.
            None => ScreenMessage::Noop,
        }
    }
}

impl Default for HomeState {
    fn default() -> (state: Self)
        ensures
            state@ == HomeState::initial(),
    {
        let play_button = Button::new(String::from_str("play_button"), String::from_str("Play!"));
        let quit_button = Button::new(String::from_str("quit_button"), String::from_str("Quit!"));
        let mut menu_buttons: Vec<Button> = Vec::new();
        menu_buttons.push(play_button);
        menu_buttons.push(quit_button);
        let mut action_map: StringHashMap<ButtonAction> = StringHashMap::new();
        action_map.insert(String::from_str("play_button"), ButtonAction::StartGame);
        action_map.insert(String::from_str("quit_button"), ButtonAction::Quit);
        proof {
            reveal_strlit("play_button");
            reveal_strlit("quit_button");
            assert("play_button"@[0] != "quit_button"@[0]);
        }
        assert(ids_of(menu_buttons@) =~= seq!["play_button"@, "quit_button"@]);
        assert(labels_of(menu_buttons@) =~= seq!["Play!"@, "Quit!"@]);
        assert(actions_of(menu_buttons@, action_map@) =~= seq![
            ButtonAction::StartGame,
            ButtonAction::Quit,
        ]);
        HomeState { selected_button: 0, menu_buttons, action_map }
    }
}

impl EventHandler for HomeState {
    fn handle_events(&mut self, event: InputEvent) -> (message: ScreenMessage)
        ensures
            HomeState::handles(old(self)@, event, final(self)@, message@),
    {
        match event.pressed() {
            Some(KeyCode::Up) => self.move_prev_button(),
            Some(KeyCode::Down) => self.move_next_button(),
            Some(KeyCode::Enter) => self.select_button(),
            _ => ScreenMessage::Noop,
        }
    }
}

impl FrameRenderer for HomeState {
    fn render_frame(&self) -> (frame: RenderDescription)
        ensures
            frame@ == self@.regions(),
    {
        render_menu(&self.menu_buttons, self.selected_button)
    }
}

} // verus!
