use nonogram::board::{BoardState, Direction};
use nonogram::render::Span;

fn board(rows: Vec<Vec<bool>>) -> BoardState {
    BoardState::with_solution(rows).unwrap()
}

fn texts(line: &Vec<Span>) -> Vec<&str> {
    line.iter().map(|span| span.text.as_str()).collect()
}

fn joined(lines: &Vec<Vec<Span>>) -> Vec<String> {
    lines.iter().map(|line| texts(line).concat()).collect()
}

/// The places of the spans with emphasis, as (line, span).
fn emphasised(lines: &Vec<Vec<Span>>) -> Vec<(usize, usize)> {
    let mut places = Vec::new();
    for (i, line) in lines.iter().enumerate() {
        for (j, span) in line.iter().enumerate() {
            if span.emphasis {
                places.push((i, j));
            }
        }
    }
    places
}

#[test]
fn picture_of_a_fresh_board() {
    let b = board(vec![
        vec![true, true, false],
        vec![false, false, false],
        vec![true, false, true],
    ]);
    let lines = b.render();
    assert_eq!(joined(&lines), vec!["    1  ", "    111", "  2 ...", "    ...", "1 1 ..."]);
}

#[test]
fn picture_is_cut_into_spans() {
    let b = board(vec![
        vec![true, true, false],
        vec![false, false, false],
        vec![true, false, true],
    ]);
    let lines = b.render();
    assert_eq!(texts(&lines[0]), vec!["    1  "]);
    assert_eq!(texts(&lines[1]), vec!["    111"]);
    assert_eq!(texts(&lines[2]), vec![" ", " ", "2", " ", ".", ".", "."]);
    assert_eq!(texts(&lines[3]), vec![" ", " ", " ", " ", ".", ".", "."]);
    assert_eq!(texts(&lines[4]), vec!["1", " ", "1", " ", ".", ".", "."]);
}

#[test]
fn picture_shows_the_marks() {
    let mut b = board(vec![vec![true, false], vec![false, true]]);
    assert_eq!(b.toggle(0, 0), Ok(()));
    assert_eq!(b.toggle(0, 1), Ok(()));
    assert_eq!(b.toggle(0, 1), Ok(()));
    let lines = b.render();
    assert_eq!(joined(&lines), vec!["  11", "1 #X", "1 .."]);
}

#[test]
fn picture_emphasises_the_cell_under_the_cursor() {
    let mut b = board(vec![vec![true, false], vec![false, true]]);
    assert_eq!(emphasised(&b.render()), vec![(1, 2)]);
    b.move_cursor(Direction::Right);
    assert_eq!(emphasised(&b.render()), vec![(1, 3)]);
    b.move_cursor(Direction::Down);
    assert_eq!(emphasised(&b.render()), vec![(2, 3)]);
    b.move_cursor(Direction::Left);
    assert_eq!(emphasised(&b.render()), vec![(2, 2)]);
}

#[test]
fn picture_of_a_blank_board_has_no_clues() {
    let b = board(vec![vec![false; 2]; 2]);
    let lines = b.render();
    assert_eq!(joined(&lines), vec!["..", ".."]);
    assert_eq!(emphasised(&lines), vec![(0, 0)]);
}

#[test]
fn picture_of_one_cell() {
    let b = board(vec![vec![true]]);
    let lines = b.render();
    assert_eq!(joined(&lines), vec!["  1", "1 ."]);
    assert_eq!(emphasised(&lines), vec![(1, 2)]);
}

#[test]
fn picture_writes_long_runs_in_full() {
    let mut rows = vec![vec![false; 10]; 10];
    rows[0] = vec![true; 10];
    let b = board(rows);
    let lines = b.render();
    let all = joined(&lines);
    assert_eq!(all.len(), 11);
    assert_eq!(all[0], "  1111111111");
    assert_eq!(all[1], "10 ..........");
    assert_eq!(all[2], "  ..........");
    assert_eq!(texts(&lines[1])[0], "10");
}

#[test]
fn picture_changes_nothing() {
    let mut b = board(vec![vec![true, false], vec![false, true]]);
    assert_eq!(b.toggle(1, 1), Ok(()));
    b.move_cursor(Direction::Down);
    let marks = b.assigned_values().clone();
    let first = joined(&b.render());
    let second = joined(&b.render());
    assert_eq!(first, second);
    assert_eq!(b.assigned_values(), &marks);
    assert_eq!(b.selected_square(), (1, 0));
}
