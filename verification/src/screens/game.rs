//! The screen on which the puzzle is played.

use crate::app::{Screen, ScreenView};
use crate::board::{Board, BoardValidity, Direction};
pub use crate::board::{BoardState, GameSettings};
use crate::input::{InputEvent, KeyCode};
use crate::render::{
    one_span_region, plain, single_span_region, Region, RegionSize, RegionView, RenderDescription,
};
use crate::screens::end::EndState;
use crate::text::{decimal, push_decimal};
use crate::traits::{EventHandler, FrameRenderer, MessageView, ScreenMessage};
use vstd::prelude::*;
use vstd::string::StringExecFns;

verus! {

/// The model of a game: the settings it was started with and its board.
pub struct GameView {
    pub settings: GameSettings,
    pub board: Board,
}

impl GameView {
    /// The board is well formed and has the size that the settings give.
    pub open spec fn wf(self) -> bool {
        self.board.wf() && self.board.size() == self.settings.size
    }

    /// Whether this is a game as it starts with `settings`: a fresh board of
    /// their size, whatever its solution.
    pub open spec fn is_new(self, settings: GameSettings) -> bool {
        &&& self.settings == settings
        &&& self.wf()
        &&& self.board == Board::fresh(self.board.solution)
    }

    /// The game with `board` in the place of its board.
    pub open spec fn with_board(self, board: Board) -> GameView {
        GameView { board, ..self }
    }

    /// The game after the mark under the cursor has moved on by one.
    pub open spec fn toggled(self) -> GameView {
        self.with_board(self.board.toggled(self.board.cursor.0, self.board.cursor.1))
    }

    /// The game after one step of the cursor.
    pub open spec fn moved(self, dir: Direction) -> GameView {
        self.with_board(self.board.moved(dir))
    }

    /// How a check takes the game from `self` to `after` with answer `message`.
    /// Every check writes the recorded mismatch anew.  On a solved board there
    /// is none, so what an earlier check recorded is cleared, and the answer
    /// is the end screen with the game as it then stands.  Else the first
    /// wrong cell is recorded and the game goes on.
    pub open spec fn checked(self, after: GameView, message: MessageView) -> bool {
        if self.board.solved() {
            &&& after == self.with_board(self.board.recorded(None))
            &&& message == MessageView::ChangeScreen(ScreenView::End(after))
        } else {
            &&& message is Noop
            &&& after == self.with_board(self.board.recorded(after.board.last_mismatch))
            &&& after.board.last_mismatch matches Some((row, col)) && self.board.first_mismatch(
                row,
                col,
            )
        }
    }

    /// How the game screen takes `event`: the space bar toggles the cell under
    /// the cursor, the arrows move the cursor, `c` checks the board, and
    /// anything else is passed over.
    pub open spec fn handles(self, event: InputEvent, after: GameView, message: MessageView) -> bool {
        match event.key_down() {
            Some(KeyCode::Char(key)) => if key == ' ' {
                after == self.toggled() && message is Noop
            } else if key == 'c' {
                self.checked(after, message)
            } else {
                after == self && message is Noop
            },
            Some(KeyCode::Up) => after == self.moved(Direction::Up) && message is Noop,
            Some(KeyCode::Down) => after == self.moved(Direction::Down) && message is Noop,
            Some(KeyCode::Left) => after == self.moved(Direction::Left) && message is Noop,
            Some(KeyCode::Right) => after == self.moved(Direction::Right) && message is Noop,
            _ => after == self && message is Noop,
        }
    }

    /// The picture of the game: the board in a fifth of the room, and below it
    /// two rows for the mismatch that the last check recorded.
    pub open spec fn regions(self) -> Seq<RegionView> {
        seq![
            RegionView { size: RegionSize::Percentage(20), lines: self.board.text_lines() },
            one_span_region(RegionSize::Length(2), plain(mismatch_text(self.board.last_mismatch))),
        ]
    }
}

/// A recorded mismatch as text: `None`, or the row and the column in the form
/// `Some((row, col))`.
pub open spec fn mismatch_text(tile: Option<(int, int)>) -> Seq<char> {
    match tile {
        None => "None"@,
        Some((row, col)) => "Some(("@ + decimal(row as nat) + ", "@ + decimal(col as nat) + "))"@,
    }
}

/// A game in play: the settings it was started with and its board.
pub struct GameState {
    pub settings: GameSettings,
    pub board_state: BoardState,
}

impl View for GameState {
    type V = GameView;

    open spec fn view(&self) -> GameView {
        GameView { settings: self.settings, board: self.board_state@ }
    }
}

impl GameState {
    /// Starts a game with a board drawn at random.
    ///
    /// This is an associated function and no impl of `From`, because it asks
    /// for a positive size.
    pub fn from(settings: GameSettings) -> (game: Self)
        requires
            settings.size > 0,
        ensures
            game@.is_new(settings),
    {
        GameState { settings, board_state: BoardState::from(settings) }
    }

    /// Moves the mark under the cursor on by one.
    pub fn toggle_selected_square(&mut self) -> (message: ScreenMessage)
        ensures
            final(self)@ == old(self)@.toggled(),
            message@ is Noop,
    {
        let (row, col) = self.board_state.selected_square();
        let _done = self.board_state.toggle(row, col);
        ScreenMessage::Noop
    }

    /// Moves the cursor one row up, unless it is in the first row.
    pub fn move_selected_up(&mut self) -> (message: ScreenMessage)
        ensures
            final(self)@ == old(self)@.moved(Direction::Up),
            message@ is Noop,
    {
        self.board_state.move_cursor(Direction::Up);
        ScreenMessage::Noop
    }

    /// Moves the cursor one row down, unless it is in the last row.
    pub fn move_selected_down(&mut self) -> (message: ScreenMessage)
        ensures
            final(self)@ == old(self)@.moved(Direction::Down),
            message@ is Noop,
    {
        self.board_state.move_cursor(Direction::Down);
        ScreenMessage::Noop
    }

    /// Moves the cursor one column to the left, unless it is in the first
    /// column.
    pub fn move_selected_left(&mut self) -> (message: ScreenMessage)
        ensures
            final(self)@ == old(self)@.moved(Direction::Left),
            message@ is Noop,
    {
        self.board_state.move_cursor(Direction::Left);
        ScreenMessage::Noop
    }

    /// Moves the cursor one column to the right, unless it is in the last
    /// column.
    pub fn move_selected_right(&mut self) -> (message: ScreenMessage)
        ensures
            final(self)@ == old(self)@.moved(Direction::Right),
            message@ is Noop,
    {
        self.board_state.move_cursor(Direction::Right);
        ScreenMessage::Noop
    }

    /// Checks the marks against the solution.  If every cell is right, clears
    /// the recorded mismatch, asks for the end screen and hands it the game as
    /// it then stands; else records the first wrong cell.
    pub fn check_assigned(&mut self) -> (message: ScreenMessage)
        ensures
            old(self)@.checked(final(self)@, message@),
    {
        match self.board_state.check_assigned() {
            BoardValidity::Valid => {
                self.board_state.set_invalid_tile(None);
                ScreenMessage::ChangeScreen(Screen::End(EndState::from(self.clone())))
            },
            BoardValidity::Invalid(row, col) => {
                self.board_state.set_invalid_tile(Some((row, col)));
                ScreenMessage::Noop
            },
        }
    }
}

impl Clone for GameState {
    fn clone(&self) -> (copy: Self)
        ensures
            copy@ == self@,
    {
        GameState { settings: self.settings, board_state: self.board_state.clone() }
    }
}

impl Default for GameState {
    /// A game on a board of ten rows and ten columns.
    fn default() -> (game: Self)
        ensures
            game@.is_new(GameSettings { size: 10 }),
    {
        GameState::from(GameSettings { size: 10 })
    }
}

impl EventHandler for GameState {
    fn handle_events(&mut self, event: InputEvent) -> (message: ScreenMessage)
        ensures
            old(self)@.handles(event, final(self)@, message@),
    {
        match event.pressed() {
            Some(KeyCode::Char(key)) => {
                if key == ' ' {
                    self.toggle_selected_square()
                } else if key == 'c' {
                    self.check_assigned()
                } else {
                    ScreenMessage::Noop
                }
            },
            Some(KeyCode::Up) => self.move_selected_up(),
            Some(KeyCode::Down) => self.move_selected_down(),
            Some(KeyCode::Left) => self.move_selected_left(),
            Some(KeyCode::Right) => self.move_selected_right(),
            _ => ScreenMessage::Noop,
        }
    }
}

/// A recorded mismatch as text.
fn mismatch_string(tile: Option<(u8, u8)>) -> (text: String)
    ensures
        text@ == mismatch_text(crate::board::tile_view(tile)),
{
    match tile {
        None => String::from_str("None"),
        Some((row, col)) => {
            let mut text = String::from_str("Some((");
            push_decimal(&mut text, row as u16);
            text.append(", ");
            push_decimal(&mut text, col as u16);
            text.append("))");
            text
        },
    }
}

impl FrameRenderer for GameState {
    fn render_frame(&self) -> (frame: RenderDescription)
        ensures
            frame@ == self@.regions(),
    {
        let board = Region { size: RegionSize::Percentage(20), lines: self.board_state.render() };
        let status = single_span_region(
            RegionSize::Length(2),
            mismatch_string(self.board_state.invalid_tile()),
            false,
        );
        let mut regions: Vec<Region> = Vec::new();
        regions.push(board);
        regions.push(status);
        let frame = RenderDescription { regions };
        frame
    }
}

} // verus!
