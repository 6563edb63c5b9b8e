//! The board as lines of text.
//!
//! The picture has the column clues on top and one line per row below.  Column
//! clues are written downwards and aligned at the bottom, row clues are written
//! from left to right and aligned at the right, so that every clue ends where
//! the cells begin.  Each number is written in decimal, as it is.

use crate::board::{grid_view, hints_view, Board, BoardState, Mark};
use crate::hints::clue_values;
use crate::render::{
    lemma_line_view_push, lemma_lines_view_push, line_view, lines_view, plain, Span, SpanView,
};
use crate::text::{blanks, decimal, push_blanks, push_decimal};
use vstd::prelude::*;
use vstd::string::StringExecFns;

verus! {

/// The character that stands for a mark.
pub open spec fn glyph(mark: Mark) -> char {
    match mark {
        Mark::Filled => '#',
        Mark::Empty => 'X',
        Mark::Unmarked => '.',
    }
}

/// The number of runs of the longest clue, 0 if there is no clue.
pub open spec fn depth(clues: Seq<Seq<nat>>) -> nat
    decreases clues.len(),
{
    if clues.len() == 0 {
        0
    } else {
        let rest = depth(clues.drop_last());
        if clues.last().len() > rest {
            clues.last().len()
        } else {
            rest
        }
    }
}

/// What stands in slot `slot` of a clue that is written into `depth` slots and
/// ends in the last of them: a blank in front of the clue, then its runs.
pub open spec fn clue_slot(clue: Seq<nat>, depth: nat, slot: int) -> Seq<char> {
    let pad = depth - clue.len();
    if slot < pad {
        seq![' ']
    } else {
        decimal(clue[slot - pad])
    }
}

/// Slot `slot` of every column's clue, from the first column to the last, the
/// clues laid out in as many slots as the longest of them has runs.
pub open spec fn header_slots(column_clues: Seq<Seq<nat>>, slot: int) -> Seq<Seq<char>> {
    Seq::new(column_clues.len(), |c: int| clue_slot(column_clues[c], depth(column_clues), slot))
}

/// Line `slot` of the column clues: blanks over the row clues, two for each of
/// their `row_depth` slots, then that slot of every column's clue.
pub open spec fn header_text(row_depth: nat, column_clues: Seq<Seq<nat>>, slot: int) -> Seq<char> {
    blanks(row_depth) + blanks(row_depth) + header_slots(column_clues, slot).flatten()
}

/// Span `k` of the row clue `clue` written into `row_depth` slots: the slots
/// alternate with single blanks.
pub open spec fn clue_span(clue: Seq<nat>, row_depth: nat, k: int) -> SpanView {
    if k % 2 == 0 {
        plain(clue_slot(clue, row_depth, k / 2))
    } else {
        plain(seq![' '])
    }
}

/// The span of the cell in column `col` of row `row`, which is emphasised if
/// the cursor is on it.
pub open spec fn cell_span(marks: Seq<Mark>, row: int, col: int, cursor: (int, int)) -> SpanView {
    SpanView { text: seq![glyph(marks[col])], emphasis: cursor == (row, col) }
}

/// The spans of a row clue written into `row_depth` slots: two for each slot.
pub open spec fn clue_spans(clue: Seq<nat>, row_depth: nat) -> Seq<SpanView> {
    Seq::new(2 * row_depth, |k: int| clue_span(clue, row_depth, k))
}

/// The spans of the cells of row `row`, from the first column to the last.
pub open spec fn cell_spans(marks: Seq<Mark>, row: int, cursor: (int, int)) -> Seq<SpanView> {
    Seq::new(marks.len(), |c: int| cell_span(marks, row, c, cursor))
}

/// The line of row `row`: its clue, then its cells.
pub open spec fn row_spans(
    clue: Seq<nat>,
    row_depth: nat,
    marks: Seq<Mark>,
    row: int,
    cursor: (int, int),
) -> Seq<SpanView> {
    clue_spans(clue, row_depth) + cell_spans(marks, row, cursor)
}

impl Board {
    /// The lines of the column clues: one for each slot of the longest clue,
    /// each a single span without emphasis.
    pub open spec fn header_lines(self) -> Seq<Seq<SpanView>> {
        Seq::new(
            depth(self.column_hints()),
            |slot: int| seq![plain(header_text(depth(self.row_hints()), self.column_hints(), slot))],
        )
    }

    /// The lines of the rows, from the first row to the last.
    pub open spec fn row_lines(self) -> Seq<Seq<SpanView>> {
        Seq::new(
            self.solution.len(),
            |row: int|
                row_spans(
                    self.row_hints()[row],
                    depth(self.row_hints()),
                    self.assigned[row],
                    row,
                    self.cursor,
                ),
        )
    }

    /// The picture of the board: the column clues, then the rows.
    pub open spec fn text_lines(self) -> Seq<Seq<SpanView>> {
        self.header_lines() + self.row_lines()
    }
}

/// No clue is longer than the longest.
proof fn lemma_depth_bounds(clues: Seq<Seq<nat>>, i: int)
    requires
        0 <= i < clues.len(),
    ensures
        clues[i].len() <= depth(clues),
    decreases clues.len(),
{
    if i < clues.len() - 1 {
        lemma_depth_bounds(clues.drop_last(), i);
    }
}

/// The number of runs of the longest of the stored clues.
fn longest(clues: &Vec<Vec<u8>>) -> (len: usize)
    ensures
        len == depth(hints_view(clues@)),
{
    let mut len: usize = 0;
    let mut i: usize = 0;
    while i < clues.len()
        invariant
            i <= clues.len(),
            len == depth(hints_view(clues@).take(i as int)),
        decreases clues.len() - i,
    {
        assert(hints_view(clues@).take(i + 1).drop_last() =~= hints_view(clues@).take(i as int));
        if clues[i].len() > len {
            len = clues[i].len();
        }
        i += 1;
    }
    assert(hints_view(clues@).take(i as int) =~= hints_view(clues@));
    len
}

/// Writes slot `slot` of the stored clue `clue`, laid out in `depth` slots, at
/// the end of `text`.
fn push_clue_slot(text: &mut String, clue: &Vec<u8>, depth: usize, slot: usize)
    requires
        clue.len() <= depth,
        slot < depth,
    ensures
        final(text)@ == old(text)@ + clue_slot(clue_values(clue@), depth as nat, slot as int),
{
    let pad = depth - clue.len();
    if slot < pad {
        proof {
            reveal_strlit(" ");
        }
        text.append(" ");
    } else {
        push_decimal(text, clue[slot - pad] as u16);
    }
}

/// Line `slot` of the column clues, as one text.
fn header_line(column_counts: &Vec<Vec<u8>>, row_depth: usize, column_depth: usize, slot: usize) -> (text:
    String)
    requires
        column_depth == depth(hints_view(column_counts@)),
        slot < column_depth,
    ensures
        text@ == header_text(row_depth as nat, hints_view(column_counts@), slot as int),
{
    let ghost clues = hints_view(column_counts@);
    let ghost slots = header_slots(clues, slot as int);
    let mut text = String::new();
    push_blanks(&mut text, row_depth);
    push_blanks(&mut text, row_depth);
    let ghost indent = text@;
    let mut c: usize = 0;
    while c < column_counts.len()
        invariant
            c <= column_counts.len(),
            clues == hints_view(column_counts@),
            column_depth == depth(clues),
            slot < column_depth,
            slots == header_slots(clues, slot as int),
            text@ == indent + slots.take(c as int).flatten(),
        decreases column_counts.len() - c,
    {
        proof {
            lemma_depth_bounds(clues, c as int);
            slots.take(c as int).lemma_flatten_push(slots[c as int]);
            assert(slots.take(c as int).push(slots[c as int]) =~= slots.take(c + 1));
        }
        push_clue_slot(&mut text, &column_counts[c], column_depth, slot);
        c += 1;
    }
    assert(slots.take(c as int) =~= slots);
    text
}

/// The text of one mark.
fn glyph_text(mark: Mark) -> (text: String)
    ensures
        text@ == seq![glyph(mark)],
{
    proof {
        reveal_strlit("#");
        reveal_strlit("X");
        reveal_strlit(".");
    }
    match mark {
        Mark::Filled => String::from_str("#"),
        Mark::Empty => String::from_str("X"),
        Mark::Unmarked => String::from_str("."),
    }
}

/// The line of row `row`: the stored clue `clue` laid out in `row_depth` slots,
/// then the cells with marks `marks`.
fn row_line(clue: &Vec<u8>, row_depth: usize, marks: &Vec<Mark>, row: u8, cursor: (u8, u8)) -> (line:
    Vec<Span>)
    requires
        clue.len() <= row_depth,
        marks.len() <= u8::MAX,
    ensures
        line_view(line@) == row_spans(
            clue_values(clue@),
            row_depth as nat,
            marks@,
            row as int,
            (cursor.0 as int, cursor.1 as int),
        ),
{
    let ghost values = clue_values(clue@);
    let ghost at = (cursor.0 as int, cursor.1 as int);
    let ghost lead = clue_spans(values, row_depth as nat);
    let ghost cells = cell_spans(marks@, row as int, at);
    let mut line: Vec<Span> = Vec::new();
    let mut i: usize = 0;
    while i < row_depth
        invariant
            i <= row_depth,
            clue.len() <= row_depth,
            values == clue_values(clue@),
            lead == clue_spans(values, row_depth as nat),
            line_view(line@) == lead.take(2 * i),
        decreases row_depth - i,
    {
        let mut slot = String::new();
        push_clue_slot(&mut slot, clue, row_depth, i);
        let number = Span { text: slot, emphasis: false };
        proof {
            reveal_strlit(" ");
            lemma_line_view_push(line@, number);
        }
        line.push(number);
        let gap = Span { text: String::from_str(" "), emphasis: false };
        proof {
            lemma_line_view_push(line@, gap);
        }
        line.push(gap);
        assert(line_view(line@) =~= lead.take(2 * (i + 1))) by {
            assert(number@ == lead[2 * i]);
            assert(gap@.text =~= seq![' ']);
            assert(gap@ == lead[2 * i + 1]);
        }
        i += 1;
    }
    let mut c: usize = 0;
    while c < marks.len()
        invariant
            c <= marks.len() <= u8::MAX,
            at == (cursor.0 as int, cursor.1 as int),
            cells == cell_spans(marks@, row as int, at),
            line_view(line@) == lead + cells.take(c as int),
        decreases marks.len() - c,
    {
        let cell = Span { text: glyph_text(marks[c]), emphasis: row == cursor.0 && c as u8 == cursor.1 };
        proof {
            lemma_line_view_push(line@, cell);
        }
        line.push(cell);
        c += 1;
    }
    line
}

impl BoardState {
    /// The picture of the board as it stands: clues, marks and cursor.
    pub fn render(&self) -> (lines: Vec<Vec<Span>>)
        ensures
            lines_view(lines@) == self@.text_lines(),
    {
        let size = self.size();
        let row_counts = self.row_counts();
        let column_counts = self.column_counts();
        let marks = self.assigned_values();
        let cursor = self.selected_square();
        let row_depth = longest(row_counts);
        let column_depth = longest(column_counts);
        let ghost board = self@;
        let mut lines: Vec<Vec<Span>> = Vec::new();
        let mut slot: usize = 0;
        while slot < column_depth
            invariant
                slot <= column_depth == depth(board.column_hints()),
                row_depth == depth(board.row_hints()),
                hints_view(column_counts@) == board.column_hints(),
                lines_view(lines@) == board.header_lines().take(slot as int),
            decreases column_depth - slot,
        {
            let text = header_line(column_counts, row_depth, column_depth, slot);
            let mut line: Vec<Span> = Vec::new();
            line.push(Span { text, emphasis: false });
            proof {
                lemma_lines_view_push(lines@, line);
                assert(line_view(line@) =~= board.header_lines()[slot as int]);
            }
            lines.push(line);
            slot += 1;
        }
        let mut m: u8 = 0;
        while m < size
            invariant
                m <= size == board.size(),
                board.wf(),
                row_depth == depth(board.row_hints()),
                hints_view(row_counts@) == board.row_hints(),
                grid_view(marks@) == board.assigned,
                (cursor.0 as int, cursor.1 as int) == board.cursor,
                lines_view(lines@) == board.header_lines() + board.row_lines().take(m as int),
            decreases size - m,
        {
            proof {
                lemma_depth_bounds(board.row_hints(), m as int);
                assert(board.assigned[m as int].len() == size);
            }
            let line = row_line(&row_counts[m as usize], row_depth, &marks[m as usize], m, cursor);
            proof {
                lemma_lines_view_push(lines@, line);
            }
            lines.push(line);
            m += 1;
        }
        lines
    }
}

} // verus!
