//! What every screen can do, and what a screen answers to an event.

use crate::app::{Screen, ScreenView};
use crate::input::InputEvent;
use crate::render::RenderDescription;
use vstd::prelude::*;

verus! {

/// What a screen asks of the application after an event.
pub enum ScreenMessage {
    /// End the program.
    Exit,
    /// Put this screen in the place of the one that answered.
    ChangeScreen(Screen),
    /// Go on.
    Noop,
}

/// The model of a [`ScreenMessage`].
pub enum MessageView {
    Exit,
    ChangeScreen(ScreenView),
    Noop,
}

impl View for ScreenMessage {
    type V = MessageView;

    open spec fn view(&self) -> MessageView {
        match self {
            ScreenMessage::Exit => MessageView::Exit,
            ScreenMessage::ChangeScreen(screen) => MessageView::ChangeScreen(screen@),
            ScreenMessage::Noop => MessageView::Noop,
        }
    }
}

/// A screen can say what is to be drawn of it.  Saying so changes nothing.
pub trait FrameRenderer {
    fn render_frame(&self) -> RenderDescription;
}

/// A screen can take an event: it may change itself, and it answers with what
/// it asks of the application.
pub trait EventHandler {
    fn handle_events(&mut self, event: InputEvent) -> ScreenMessage;
}

} // verus!
