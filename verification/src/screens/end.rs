//! The screen that shows how the game ended.

use crate::board::{grid_view, is_square};
use crate::hints::filled_count;
use crate::input::InputEvent;
use crate::render::{
    one_span_region, plain, single_span_region, Region, RegionSize, RegionView, RenderDescription,
};
use crate::screens::game::{GameState, GameView};
use crate::text::{decimal, push_decimal};
use crate::traits::{EventHandler, FrameRenderer, ScreenMessage};
use vstd::prelude::*;
use vstd::string::StringExecFns;

verus! {

/// The figures of a finished game.
#[derive(Clone, Copy, PartialEq, Eq, Structural, Debug)]
pub struct EndGameStats {
    /// The number of cells of the board.
    pub total_squares: u16,
    /// The number of filled cells of the solution.
    pub black_squares: u16,
}

/// The number of filled cells of `grid`.
pub open spec fn filled_cells(grid: Seq<Seq<bool>>) -> nat
    decreases grid.len(),
{
    if grid.len() == 0 {
        0
    } else {
        filled_cells(grid.drop_last()) + filled_count(grid.last())
    }
}

/// The figures as text.
pub open spec fn stats_text(total: nat, black: nat) -> Seq<char> {
    "EndGameStats { total_squares: "@ + decimal(total) + ", black_squares: "@ + decimal(black)
        + " }"@
}

/// The picture of the end screen: the figures, in a fifth of the room.
pub open spec fn end_regions(game: GameView) -> Seq<RegionView> {
    seq![
        one_span_region(
            RegionSize::Percentage(20),
            plain(
                stats_text(
                    (game.settings.size * game.settings.size) as nat,
                    filled_cells(game.board.solution),
                ),
            ),
        ),
    ]
}

/// The number of filled cells of a line.
fn count_filled(line: &Vec<bool>) -> (count: u16)
    requires
        line.len() <= u8::MAX,
    ensures
        count == filled_count(line@),
        count <= line.len(),
{
    let mut count: u16 = 0;
    let mut i: usize = 0;
    while i < line.len()
        invariant
            i <= line.len() <= u8::MAX,
            count == filled_count(line@.take(i as int)),
            count <= i,
        decreases line.len() - i,
    {
        assert(line@.take(i + 1).drop_last() =~= line@.take(i as int));
        if line[i] {
            count += 1;
        }
        i += 1;
    }
    assert(line@.take(i as int) =~= line@);
    count
}

/// The screen that a solved game ends on.  It keeps the game as it stood when
/// it was solved.
pub struct EndState {
    end_game_state: GameState,
}

impl View for EndState {
    type V = GameView;

    closed spec fn view(&self) -> GameView {
        self.end_game_state@
    }
}

impl EndState {
    /// The game as it stood when it was solved.
    pub fn end_game_state(&self) -> (game: &GameState)
        ensures
            game@ == self@,
    {
        &self.end_game_state
    }

    /// The figures of the game: how many cells the board has, and how many of
    /// them the solution fills.
    pub fn get_game_stats(&self) -> (stats: EndGameStats)
        ensures
            stats.total_squares == self@.settings.size * self@.settings.size,
            stats.black_squares == filled_cells(self@.board.solution),
    {
        let size = self.end_game_state.settings.size as u16;
        assert(size * size <= 255 * 255) by (nonlinear_arith)
            requires
                size <= 255,
        ;
        let total_squares = size * size;
        let board = &self.end_game_state.board_state;
        let width = board.size();
        let rows = board.true_values();
        let ghost grid = self@.board.solution;
        let mut black_squares: u16 = 0;
        let mut r: usize = 0;
        while r < rows.len()
            invariant
                r <= rows.len() == width,
                grid_view(rows@) == grid,
                is_square(grid),
                black_squares == filled_cells(grid.take(r as int)),
                black_squares <= r * 255,
            decreases rows.len() - r,
        {
            assert(grid.take(r + 1).drop_last() =~= grid.take(r as int));
            assert(grid[r as int].len() == width);
            black_squares += count_filled(&rows[r]);
            r += 1;
        }
        assert(grid.take(r as int) =~= grid);
        EndGameStats { total_squares, black_squares }
    }
}

impl vstd::std_specs::convert::FromSpecImpl<GameState> for EndState {
    open spec fn obeys_from_spec() -> bool {
        true
    }

    closed spec fn from_spec(game_state: GameState) -> EndState {
        EndState { end_game_state: game_state }
    }
}

impl From<GameState> for EndState {
    fn from(game_state: GameState) -> (state: Self)
        ensures
            state@ == game_state@,
    {
        EndState { end_game_state: game_state }
    }
}

impl EventHandler for EndState {
    /// The end screen listens to nothing.
    fn handle_events(&mut self, event: InputEvent) -> (message: ScreenMessage)
        ensures
            final(self)@ == old(self)@,
            message@ is Noop,
    {
        ScreenMessage::Noop
    }
}

/// The figures as text.
fn stats_string(stats: EndGameStats) -> (text: String)
    ensures
        text@ == stats_text(stats.total_squares as nat, stats.black_squares as nat),
{
    let mut text = String::from_str("EndGameStats { total_squares: ");
    push_decimal(&mut text, stats.total_squares);
    text.append(", black_squares: ");
    push_decimal(&mut text, stats.black_squares);
    text.append(" }");
    text
}

impl FrameRenderer for EndState {
    fn render_frame(&self) -> (frame: RenderDescription)
        ensures
            frame@ == end_regions(self@),
    {
        let region = single_span_region(
            RegionSize::Percentage(20),
            stats_string(self.get_game_stats()),
            false,
        );
        let mut regions: Vec<Region> = Vec::new();
        regions.push(region);
        let frame = RenderDescription { regions };
        frame
    }
}

} // verus!
