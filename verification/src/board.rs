//! The puzzle board: its mathematical model and the engine that works on it.
//!
//! [`Board`] is the model, a plain value made of sequences and integers, and the
//! rules of the game are spec functions on it.  [`BoardState`] is the board that
//! runs; every operation on it is stated as the rule it carries out on the model.

use crate::hints::{clue_values, filled_count, lemma_runs_total, line_hints, runs, total};
use crate::random::random_grid;
use vstd::prelude::*;

verus! {

/// What the player has put on a cell.
#[derive(Clone, Copy, PartialEq, Eq, Structural, Debug)]
pub enum Mark {
    Unmarked,
    Filled,
    Empty,
}

/// One step of the cursor.
#[derive(Clone, Copy, PartialEq, Eq, Structural, Debug)]
pub enum Direction {
    Up,
    Down,
    Left,
    Right,
}

/// The outcome of checking the marks against the solution.  `Invalid` carries
/// the row and column of a cell that is not marked as the solution has it.
#[derive(Clone, Copy, PartialEq, Eq, Structural, Debug)]
pub enum BoardValidity {
    Valid,
    Invalid(u8, u8),
}

/// Why the engine left the board as it was.
#[derive(Clone, Copy, PartialEq, Eq, Structural, Debug)]
pub enum BoardError {
    /// The coordinate names no cell of the board.
    OutOfBounds,
}

/// The choices a game is started with.  A board has `size` rows and `size`
/// columns; a playable game has a positive size.
#[derive(Clone, Copy)]
pub struct GameSettings {
    pub size: u8,
}

/// The mark that follows `mark` when a cell is toggled.
pub open spec fn next_mark(mark: Mark) -> Mark {
    match mark {
        Mark::Unmarked => Mark::Filled,
        Mark::Filled => Mark::Empty,
        Mark::Empty => Mark::Unmarked,
    }
}

/// The mark a solved board carries on a cell whose truth is `filled`.
pub open spec fn expected_mark(filled: bool) -> Mark {
    if filled {
        Mark::Filled
    } else {
        Mark::Empty
    }
}

/// Where a cursor at `cursor` (row, column) stands after one step on a board of
/// `size` rows and columns: a step over an edge is not taken.
pub open spec fn step(size: int, cursor: (int, int), dir: Direction) -> (int, int) {
    match dir {
        Direction::Up => (if cursor.0 > 0 { cursor.0 - 1 } else { cursor.0 }, cursor.1),
        Direction::Down => (if cursor.0 + 1 < size { cursor.0 + 1 } else { cursor.0 }, cursor.1),
        Direction::Left => (cursor.0, if cursor.1 > 0 { cursor.1 - 1 } else { cursor.1 }),
        Direction::Right => (cursor.0, if cursor.1 + 1 < size { cursor.1 + 1 } else { cursor.1 }),
    }
}

/// Whether cell (`r1`, `c1`) comes before cell (`r2`, `c2`) when the board is
/// read row by row, each row from its first column.
pub open spec fn precedes(r1: int, c1: int, r2: int, c2: int) -> bool {
    r1 < r2 || (r1 == r2 && c1 < c2)
}

/// The rows of a stored grid.
pub open spec fn grid_view<T>(grid: Seq<Vec<T>>) -> Seq<Seq<T>> {
    Seq::new(grid.len(), |r: int| grid[r]@)
}

/// The clues that a stored list of clues stands for.
pub open spec fn hints_view(stored: Seq<Vec<u8>>) -> Seq<Seq<nat>> {
    Seq::new(stored.len(), |i: int| clue_values(stored[i]@))
}

/// A stored coordinate as the model has it.
pub open spec fn tile_view(tile: Option<(u8, u8)>) -> Option<(int, int)> {
    match tile {
        Some((row, col)) => Some((row as int, col as int)),
        None => None,
    }
}

/// Whether `grid` can be the solution of a board: as many columns as rows, and
/// between 1 and 255 of each.
pub open spec fn is_square(grid: Seq<Seq<bool>>) -> bool {
    &&& 0 < grid.len() <= u8::MAX
    &&& forall|r: int| 0 <= r < grid.len() ==> (#[trigger] grid[r]).len() == grid.len()
}

/// Column `col` of `grid`, from the first row to the last.
pub open spec fn column_of_grid(grid: Seq<Seq<bool>>, col: int) -> Seq<bool> {
    Seq::new(grid.len(), |r: int| grid[r][col])
}

/// The clue of each row of `grid`, from the first row to the last.
pub open spec fn row_clues(grid: Seq<Seq<bool>>) -> Seq<Seq<nat>> {
    Seq::new(grid.len(), |r: int| runs(grid[r]))
}

/// The clue of each column of `grid`, from the first column to the last.
pub open spec fn column_clues(grid: Seq<Seq<bool>>) -> Seq<Seq<nat>> {
    Seq::new(grid.len(), |c: int| runs(column_of_grid(grid, c)))
}

/// The model of a board.  Coordinates are (row, column), counted from zero.
pub struct Board {
    /// The hidden picture: `solution[r][c]` says whether the cell is filled.
    pub solution: Seq<Seq<bool>>,
    /// The player's marks.
    pub assigned: Seq<Seq<Mark>>,
    /// The selected cell.
    pub cursor: (int, int),
    /// The cell that the last check found wrong; none before any check, and
    /// none after a check that found every cell right.
    pub last_mismatch: Option<(int, int)>,
}

impl Board {
    /// The number of rows, which is the number of columns.
    pub open spec fn size(self) -> int {
        self.solution.len() as int
    }

    /// Whether (`row`, `col`) names a cell of the board.
    pub open spec fn in_bounds(self, row: int, col: int) -> bool {
        0 <= row < self.size() && 0 <= col < self.size()
    }

    /// What holds of every board: solution and marks are full squares of the
    /// same positive size, and the cursor is on a cell.
    pub open spec fn wf(self) -> bool {
        &&& is_square(self.solution)
        &&& self.assigned.len() == self.size()
        &&& forall|r: int|
            0 <= r < self.size() ==> (#[trigger] self.assigned[r]).len() == self.size()
        &&& self.in_bounds(self.cursor.0, self.cursor.1)
    }

    /// The board as a game starts on it: nothing marked, the cursor in the first
    /// cell, no mismatch recorded.
    pub open spec fn fresh(solution: Seq<Seq<bool>>) -> Board {
        Board {
            solution,
            assigned: Seq::new(
                solution.len(),
                |r: int| Seq::new(solution.len(), |c: int| Mark::Unmarked),
            ),
            cursor: (0, 0),
            last_mismatch: None,
        }
    }

    /// Column `col` of the solution, from the first row to the last.
    pub open spec fn column(self, col: int) -> Seq<bool> {
        column_of_grid(self.solution, col)
    }

    /// The clue of each row.
    pub open spec fn row_hints(self) -> Seq<Seq<nat>> {
        row_clues(self.solution)
    }

    /// The clue of each column.
    pub open spec fn column_hints(self) -> Seq<Seq<nat>> {
        column_clues(self.solution)
    }

    /// The board after the mark of cell (`row`, `col`) has moved on by one; a
    /// coordinate off the board changes nothing.
    pub open spec fn toggled(self, row: int, col: int) -> Board {
        if self.in_bounds(row, col) {
            Board {
                assigned: self.assigned.update(
                    row,
                    self.assigned[row].update(col, next_mark(self.assigned[row][col])),
                ),
                ..self
            }
        } else {
            self
        }
    }

    /// The board after one step of the cursor.
    pub open spec fn moved(self, dir: Direction) -> Board {
        Board { cursor: step(self.size(), self.cursor, dir), ..self }
    }

    /// The board after a sequence of steps of the cursor.
    pub open spec fn walked(self, dirs: Seq<Direction>) -> Board
        decreases dirs.len(),
    {
        if dirs.len() == 0 {
            self
        } else {
            self.walked(dirs.drop_last()).moved(dirs.last())
        }
    }

    /// The board with `tile` recorded as the last mismatch.
    pub open spec fn recorded(self, tile: Option<(int, int)>) -> Board {
        Board { last_mismatch: tile, ..self }
    }

    /// Whether cell (`row`, `col`) is marked as the solution has it.  An
    /// unmarked cell never is.
    pub open spec fn cell_correct(self, row: int, col: int) -> bool {
        self.assigned[row][col] == expected_mark(self.solution[row][col])
    }

    /// Whether every cell is marked as the solution has it.
    pub open spec fn solved(self) -> bool {
        forall|r: int, c: int| self.in_bounds(r, c) ==> #[trigger] self.cell_correct(r, c)
    }

    /// Whether (`row`, `col`) is the first wrong cell when the board is read
    /// row by row.
    pub open spec fn first_mismatch(self, row: int, col: int) -> bool {
        &&& self.in_bounds(row, col)
        &&& !self.cell_correct(row, col)
        &&& forall|r: int, c: int|
            self.in_bounds(r, c) && precedes(r, c, row, col) ==> #[trigger] self.cell_correct(r, c)
    }
}

/// What follows from the rules.
impl Board {
    /// Each clue adds up to the number of filled cells of its line.
    pub proof fn lemma_hints_add_up(self)
        ensures
            forall|r: int|
                0 <= r < self.size() ==> total(#[trigger] self.row_hints()[r]) == filled_count(
                    self.solution[r],
                ),
            forall|c: int|
                0 <= c < self.size() ==> total(#[trigger] self.column_hints()[c]) == filled_count(
                    self.column(c),
                ),
    {
        assert forall|r: int| 0 <= r < self.size() implies total(#[trigger] self.row_hints()[r])
            == filled_count(self.solution[r]) by {
            lemma_runs_total(self.solution[r]);
        }
        assert forall|c: int| 0 <= c < self.size() implies total(
            #[trigger] self.column_hints()[c],
        ) == filled_count(self.column(c)) by {
            lemma_runs_total(self.column(c));
        }
    }

    /// Toggling one cell three times gives the board back, whatever the
    /// coordinate is.
    pub proof fn lemma_toggle_thrice(self, row: int, col: int)
        requires
            self.wf(),
        ensures
            self.toggled(row, col).toggled(row, col).toggled(row, col) == self,
    {
        if self.in_bounds(row, col) {
            let once = self.toggled(row, col);
            let twice = once.toggled(row, col);
            let thrice = twice.toggled(row, col);
            assert(thrice.assigned[row] =~= self.assigned[row]);
            assert(thrice.assigned =~= self.assigned);
        }
    }

    /// No sequence of steps takes the cursor off the board, and none touches
    /// anything but the cursor.
    pub proof fn lemma_walk_stays_on_board(self, dirs: Seq<Direction>)
        requires
            self.wf(),
        ensures
            self.walked(dirs).wf(),
            self.walked(dirs).in_bounds(self.walked(dirs).cursor.0, self.walked(dirs).cursor.1),
            self.walked(dirs).solution == self.solution,
            self.walked(dirs).assigned == self.assigned,
            self.walked(dirs).last_mismatch == self.last_mismatch,
        decreases dirs.len(),
    {
        if dirs.len() > 0 {
            self.lemma_walk_stays_on_board(dirs.drop_last());
        }
    }

    /// At most one cell is the first wrong cell.
    pub proof fn lemma_first_mismatch_unique(self, r1: int, c1: int, r2: int, c2: int)
        requires
            self.first_mismatch(r1, c1),
            self.first_mismatch(r2, c2),
        ensures
            r1 == r2,
            c1 == c2,
    {
        if precedes(r1, c1, r2, c2) {
            assert(self.cell_correct(r1, c1));
        } else if precedes(r2, c2, r1, c1) {
            assert(self.cell_correct(r2, c2));
        }
    }

    /// On a board without marks the first cell is the first wrong cell, so
    /// the board is not solved.
    pub proof fn lemma_unmarked_board_mismatch(self)
        requires
            self.wf(),
            forall|r: int, c: int| self.in_bounds(r, c) ==> self.assigned[r][c] == Mark::Unmarked,
        ensures
            self.first_mismatch(0, 0),
            !self.solved(),
    {
        assert(self.in_bounds(0, 0));
    }

}

/// The rows of a grid that has got one more row are the rows it had, and that
/// row.
pub(crate) proof fn lemma_grid_view_push<T>(grid: Seq<Vec<T>>, row: Vec<T>)
    ensures
        grid_view(grid.push(row)) == grid_view(grid).push(row@),
{
}

/// The clues of a list that has got one more clue are the clues it had, and
/// that clue.
proof fn lemma_hints_view_push(stored: Seq<Vec<u8>>, clue: Vec<u8>)
    ensures
        hints_view(stored.push(clue)) == hints_view(stored).push(clue_values(clue@)),
{
}

/// Stored clues with the same rows stand for the same clues.
proof fn lemma_hints_view_of_rows(a: Seq<Vec<u8>>, b: Seq<Vec<u8>>)
    requires
        grid_view(a) == grid_view(b),
    ensures
        hints_view(a) == hints_view(b),
{
    assert(a.len() == grid_view(a).len() == b.len());
    assert forall|i: int| 0 <= i < a.len() implies a[i]@ == b[i]@ by {
        assert(grid_view(a)[i] == grid_view(b)[i]);
    }
}

/// A copy of `line`.
fn copy_line<T: Copy>(line: &Vec<T>) -> (copy: Vec<T>)
    ensures
        copy@ == line@,
{
    let mut copy: Vec<T> = Vec::new();
    let mut i: usize = 0;
    while i < line.len()
        invariant
            i <= line.len(),
            copy@ == line@.take(i as int),
        decreases line.len() - i,
    {
        copy.push(line[i]);
        i += 1;
    }
    copy
}

/// A copy of `grid`, row by row.
fn copy_grid<T: Copy>(grid: &Vec<Vec<T>>) -> (copy: Vec<Vec<T>>)
    ensures
        grid_view(copy@) == grid_view(grid@),
{
    let mut copy: Vec<Vec<T>> = Vec::new();
    let mut r: usize = 0;
    while r < grid.len()
        invariant
            r <= grid.len(),
            grid_view(copy@) == grid_view(grid@).take(r as int),
        decreases grid.len() - r,
    {
        let line = copy_line(&grid[r]);
        proof {
            lemma_grid_view_push(copy@, line);
        }
        copy.push(line);
        r += 1;
    }
    copy
}

/// Puts `mark` on cell (`row`, `col`) of `grid`.
fn set_cell(grid: &mut Vec<Vec<Mark>>, row: usize, col: usize, mark: Mark)
    requires
        row < old(grid)@.len(),
        col < old(grid)@[row as int]@.len(),
    ensures
        grid_view(final(grid)@) == grid_view(old(grid)@).update(
            row as int,
            grid_view(old(grid)@)[row as int].update(col as int, mark),
        ),
    no_unwind
{
    grid[row][col] = mark;
}

/// A line of `len` cells that all hold `value`.
fn filled_line<T: Copy>(len: usize, value: T) -> (line: Vec<T>)
    ensures
        line@ == Seq::new(len as nat, |c: int| value),
{
    let mut line: Vec<T> = Vec::new();
    let mut c: usize = 0;
    while c < len
        invariant
            c <= len,
            line@ == Seq::new(c as nat, |k: int| value),
        decreases len - c,
    {
        line.push(value);
        c += 1;
    }
    line
}

/// Whether every row of `grid` has as many cells as `grid` has rows, and there
/// are between 1 and 255 rows.
fn check_square(grid: &Vec<Vec<bool>>) -> (square: bool)
    ensures
        square == is_square(grid_view(grid@)),
{
    let n = grid.len();
    if n == 0 || n > 255 {
        return false;
    }
    let mut r: usize = 0;
    while r < n
        invariant
            r <= n == grid.len(),
            forall|k: int| 0 <= k < r ==> (#[trigger] grid_view(grid@)[k]).len() == n,
        decreases n - r,
    {
        if grid[r].len() != n {
            assert(grid_view(grid@)[r as int].len() != n);
            return false;
        }
        r += 1;
    }
    true
}

/// Column `col` of a square grid, from the first row to the last.
fn column_of(grid: &Vec<Vec<bool>>, col: usize) -> (column: Vec<bool>)
    requires
        is_square(grid_view(grid@)),
        col < grid.len(),
    ensures
        column@ == column_of_grid(grid_view(grid@), col as int),
{
    let mut column: Vec<bool> = Vec::new();
    let mut r: usize = 0;
    while r < grid.len()
        invariant
            r <= grid.len(),
            col < grid.len(),
            is_square(grid_view(grid@)),
            column@ == Seq::new(r as nat, |k: int| grid_view(grid@)[k][col as int]),
        decreases grid.len() - r,
    {
        assert(grid_view(grid@)[r as int].len() == grid.len());
        column.push(grid[r][col]);
        r += 1;
    }
    column
}

/// A board in play.
///
/// The solution and the clues derived from it never change; the marks, the
/// cursor and the recorded mismatch are what the player moves.
pub struct BoardState {
    size: u8,
    true_values: Vec<Vec<bool>>,
    row_counts: Vec<Vec<u8>>,
    column_counts: Vec<Vec<u8>>,
    assigned_values: Vec<Vec<Mark>>,
    selected_square: (u8, u8),
    invalid_tile: Option<(u8, u8)>,
}

impl View for BoardState {
    type V = Board;

    closed spec fn view(&self) -> Board {
        Board {
            solution: grid_view(self.true_values@),
            assigned: grid_view(self.assigned_values@),
            cursor: (self.selected_square.0 as int, self.selected_square.1 as int),
            last_mismatch: tile_view(self.invalid_tile),
        }
    }
}

impl BoardState {
    /// The board is well formed, `size` is its size, and the stored clues are
    /// the clues of the stored solution.
    #[verifier::type_invariant]
    spec fn inv(self) -> bool {
        &&& self@.wf()
        &&& self.size == self.true_values@.len()
        &&& hints_view(self.row_counts@) == row_clues(grid_view(self.true_values@))
        &&& hints_view(self.column_counts@) == column_clues(grid_view(self.true_values@))
    }

    /// Sets up the board of a square solution.
    fn build(solution: Vec<Vec<bool>>) -> (board: BoardState)
        requires
            is_square(grid_view(solution@)),
        ensures
            board@ == Board::fresh(grid_view(solution@)),
    {
        let n = solution.len();
        let ghost model = Board::fresh(grid_view(solution@));
        let mut row_counts: Vec<Vec<u8>> = Vec::new();
        let mut column_counts: Vec<Vec<u8>> = Vec::new();
        let mut assigned_values: Vec<Vec<Mark>> = Vec::new();
        let mut i: usize = 0;
        while i < n
            invariant
                i <= n == solution.len(),
                is_square(grid_view(solution@)),
                model == Board::fresh(grid_view(solution@)),
                hints_view(row_counts@) == model.row_hints().take(i as int),
                hints_view(column_counts@) == model.column_hints().take(i as int),
                grid_view(assigned_values@) == model.assigned.take(i as int),
            decreases n - i,
        {
            assert(grid_view(solution@)[i as int].len() == n);
            let row_clue = line_hints(&solution[i]);
            let column = column_of(&solution, i);
            let column_clue = line_hints(&column);
            let blank = filled_line(n, Mark::Unmarked);
            proof {
                lemma_hints_view_push(row_counts@, row_clue);
                lemma_hints_view_push(column_counts@, column_clue);
                lemma_grid_view_push(assigned_values@, blank);
            }
            row_counts.push(row_clue);
            column_counts.push(column_clue);
            assigned_values.push(blank);
            i += 1;
        }
        assert(model.row_hints().take(n as int) =~= model.row_hints());
        assert(model.column_hints().take(n as int) =~= model.column_hints());
        assert(model.assigned.take(n as int) =~= model.assigned);
        BoardState {
            size: n as u8,
            true_values: solution,
            row_counts,
            column_counts,
            assigned_values,
            selected_square: (0, 0),
            invalid_tile: None,
        }
    }

    /// Sets up a board for a given solution: the clues are computed from it,
    /// no cell is marked, the cursor is in the first cell.  The solution has to
    /// be a square of 1 to 255 rows; any other grid is refused.
    pub fn with_solution(solution: Vec<Vec<bool>>) -> (board: Option<BoardState>)
        ensures
            board is Some <==> is_square(grid_view(solution@)),
            board matches Some(b) ==> b@ == Board::fresh(grid_view(solution@)),
    {
        if check_square(&solution) {
            Some(BoardState::build(solution))
        } else {
            None
        }
    }

    /// Sets up a board with a solution drawn cell by cell from the thread's
    /// random generator.  Whatever is drawn, the board is a fresh board of the
    /// size asked for, and each of its clues adds up to the filled cells of its
    /// line.
    ///
    /// This is an associated function and no impl of `From`, because it asks
    /// for a positive size.
    pub fn from(settings: GameSettings) -> (board: BoardState)
        requires
            settings.size > 0,
        ensures
            board@.wf(),
            board@.size() == settings.size,
            board@ == Board::fresh(board@.solution),
            forall|r: int|
                0 <= r < board@.size() ==> total(#[trigger] board@.row_hints()[r]) == filled_count(
                    board@.solution[r],
                ),
            forall|c: int|
                0 <= c < board@.size() ==> total(#[trigger] board@.column_hints()[c])
                    == filled_count(board@.column(c)),
    {
        let solution = random_grid(settings.size);
        let board = BoardState::build(solution);
        proof {
            board@.lemma_hints_add_up();
        }
        board
    }

    /// The number of rows and of columns.
    pub fn size(&self) -> (size: u8)
        ensures
            size == self@.size(),
            self@.wf(),
    {
        proof {
            use_type_invariant(self);
        }
        self.size
    }

    /// The hidden picture, row by row.
    pub fn true_values(&self) -> (solution: &Vec<Vec<bool>>)
        ensures
            grid_view(solution@) == self@.solution,
    {
        &self.true_values
    }

    /// The player's marks, row by row.
    pub fn assigned_values(&self) -> (marks: &Vec<Vec<Mark>>)
        ensures
            grid_view(marks@) == self@.assigned,
    {
        &self.assigned_values
    }

    /// The clue of each row, from the first row to the last.
    pub fn row_counts(&self) -> (clues: &Vec<Vec<u8>>)
        ensures
            hints_view(clues@) == self@.row_hints(),
    {
        proof {
            use_type_invariant(self);
        }
        &self.row_counts
    }

    /// The clue of each column, from the first column to the last.
    pub fn column_counts(&self) -> (clues: &Vec<Vec<u8>>)
        ensures
            hints_view(clues@) == self@.column_hints(),
    {
        proof {
            use_type_invariant(self);
        }
        &self.column_counts
    }

    /// The selected cell, as (row, column).
    pub fn selected_square(&self) -> (cursor: (u8, u8))
        ensures
            (cursor.0 as int, cursor.1 as int) == self@.cursor,
    {
        self.selected_square
    }

    /// The cell that the last check found wrong, if it found one.
    pub fn invalid_tile(&self) -> (tile: Option<(u8, u8)>)
        ensures
            tile_view(tile) == self@.last_mismatch,
    {
        self.invalid_tile
    }

    /// Moves the mark of cell (`row`, `col`) on by one: unmarked to filled,
    /// filled to empty, empty to unmarked.  A coordinate off the board is
    /// refused and the board stays as it is.
    pub fn toggle(&mut self, row: u8, col: u8) -> (done: Result<(), BoardError>)
        ensures
            final(self)@ == old(self)@.toggled(row as int, col as int),
            done is Ok <==> old(self)@.in_bounds(row as int, col as int),
    {
        proof {
            use_type_invariant(&*self);
        }
        if row >= self.size || col >= self.size {
            return Err(BoardError::OutOfBounds);
        }
        let r = row as usize;
        let c = col as usize;
        let next = match self.assigned_values[r][c] {
            Mark::Unmarked => Mark::Filled,
            Mark::Filled => Mark::Empty,
            Mark::Empty => Mark::Unmarked,
        };
        set_cell(&mut self.assigned_values, r, c, next);
        Ok(())
    }

    /// Moves the cursor one cell in `dir`, or leaves it where it is if that
    /// cell would be off the board.
    pub fn move_cursor(&mut self, dir: Direction)
        ensures
            final(self)@ == old(self)@.moved(dir),
            final(self)@.in_bounds(final(self)@.cursor.0, final(self)@.cursor.1),
    {
        proof {
            use_type_invariant(&*self);
        }
        let (row, col) = self.selected_square;
        let last = self.size - 1;
        self.selected_square = match dir {
            Direction::Up => (if row > 0 { row - 1 } else { row }, col),
            Direction::Down => (if row < last { row + 1 } else { row }, col),
            Direction::Left => (row, if col > 0 { col - 1 } else { col }),
            Direction::Right => (row, if col < last { col + 1 } else { col }),
        };
    }

    /// Records what a check found: the cell that is wrong, or `None` where
    /// every cell is right.  What was recorded before is overwritten.
    pub fn set_invalid_tile(&mut self, tile: Option<(u8, u8)>)
        ensures
            final(self)@ == old(self)@.recorded(tile_view(tile)),
    {
        proof {
            use_type_invariant(&*self);
        }
        self.invalid_tile = tile;
    }

    /// Reads the board row by row and reports the first cell that is not
    /// marked as the solution has it, or that every cell is.
    pub fn check_assigned(&self) -> (verdict: BoardValidity)
        ensures
            verdict is Valid <==> self@.solved(),
            verdict matches BoardValidity::Invalid(row, col) ==> self@.first_mismatch(
                row as int,
                col as int,
            ),
    {
        proof {
            use_type_invariant(self);
        }
        let mut m: u8 = 0;
        while m < self.size
            invariant
                m <= self.size,
                self@.wf(),
                self.size == self@.size(),
                forall|r: int, c: int|
                    0 <= r < m && 0 <= c < self.size ==> #[trigger] self@.cell_correct(r, c),
            decreases self.size - m,
        {
            let mut n: u8 = 0;
            while n < self.size
                invariant
                    m < self.size,
                    n <= self.size,
                    self@.wf(),
                    self.size == self@.size(),
                    forall|r: int, c: int|
                        0 <= r < m && 0 <= c < self.size ==> #[trigger] self@.cell_correct(r, c),
                    forall|c: int| 0 <= c < n ==> #[trigger] self@.cell_correct(m as int, c),
                decreases self.size - n,
            {
                assert(self@.solution[m as int].len() == self.size);
                assert(self@.assigned[m as int].len() == self.size);
                let mark = self.assigned_values[m as usize][n as usize];
                let wanted = if self.true_values[m as usize][n as usize] {
                    Mark::Filled
                } else {
                    Mark::Empty
                };
                if mark != wanted {
                    assert(!self@.cell_correct(m as int, n as int));
                    return BoardValidity::Invalid(m, n);
                }
                n += 1;
            }
            m += 1;
        }
        BoardValidity::Valid
    }
}

impl Clone for BoardState {
    fn clone(&self) -> (copy: Self)
        ensures
            copy@ == self@,
    {
        proof {
            use_type_invariant(self);
        }
        let true_values = copy_grid(&self.true_values);
        let row_counts = copy_grid(&self.row_counts);
        let column_counts = copy_grid(&self.column_counts);
        let assigned_values = copy_grid(&self.assigned_values);
        proof {
            lemma_hints_view_of_rows(row_counts@, self.row_counts@);
            lemma_hints_view_of_rows(column_counts@, self.column_counts@);
        }
        BoardState {
            size: self.size,
            true_values,
            row_counts,
            column_counts,
            assigned_values,
            selected_square: self.selected_square,
            invalid_tile: self.invalid_tile,
        }
    }
}

} // verus!
