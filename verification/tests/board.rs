use nonogram::board::{BoardError, BoardState, BoardValidity, Direction, GameSettings, Mark};

fn board(rows: Vec<Vec<bool>>) -> BoardState {
    BoardState::with_solution(rows).unwrap()
}

fn diagonal() -> BoardState {
    board(vec![vec![true, false], vec![false, true]])
}

/// Marks the cell: once for filled, twice for empty.
fn mark(b: &mut BoardState, row: u8, col: u8, filled: bool) {
    assert_eq!(b.toggle(row, col), Ok(()));
    if !filled {
        assert_eq!(b.toggle(row, col), Ok(()));
    }
}

fn solve(b: &mut BoardState) {
    let solution = b.true_values().clone();
    for (r, row) in solution.iter().enumerate() {
        for (c, filled) in row.iter().enumerate() {
            mark(b, r as u8, c as u8, *filled);
        }
    }
}

#[test]
fn with_solution_refuses_an_empty_grid() {
    assert!(BoardState::with_solution(vec![]).is_none());
}

#[test]
fn with_solution_refuses_a_grid_that_is_not_square() {
    assert!(BoardState::with_solution(vec![vec![true, false]]).is_none());
    assert!(BoardState::with_solution(vec![vec![true], vec![false]]).is_none());
    assert!(BoardState::with_solution(vec![vec![true, false], vec![true]]).is_none());
    assert!(BoardState::with_solution(vec![vec![]]).is_none());
}

#[test]
fn with_solution_refuses_more_than_255_rows() {
    assert!(BoardState::with_solution(vec![vec![false; 256]; 256]).is_none());
    assert!(BoardState::with_solution(vec![vec![false; 255]; 255]).is_some());
}

#[test]
fn fresh_board_has_nothing_marked() {
    let b = board(vec![vec![true, false, true], vec![false; 3], vec![true; 3]]);
    assert_eq!(b.size(), 3);
    assert_eq!(b.selected_square(), (0, 0));
    assert_eq!(b.invalid_tile(), None);
    assert_eq!(b.assigned_values(), &vec![vec![Mark::Unmarked; 3]; 3]);
    assert_eq!(
        b.true_values(),
        &vec![vec![true, false, true], vec![false; 3], vec![true; 3]]
    );
}

#[test]
fn clues_of_rows_and_columns() {
    let b = board(vec![
        vec![true, true, false],
        vec![false, false, false],
        vec![true, false, true],
    ]);
    assert_eq!(b.row_counts(), &vec![vec![2], vec![], vec![1, 1]]);
    assert_eq!(b.column_counts(), &vec![vec![1, 1], vec![1], vec![1]]);
}

#[test]
fn clues_of_a_full_board() {
    let b = board(vec![vec![true; 4]; 4]);
    assert_eq!(b.row_counts(), &vec![vec![4u8]; 4]);
    assert_eq!(b.column_counts(), &vec![vec![4u8]; 4]);
}

#[test]
fn generated_board_is_fresh_and_of_the_size_asked_for() {
    for size in [1u8, 2, 5, 10, 17] {
        let b = BoardState::from(GameSettings { size });
        assert_eq!(b.size(), size);
        assert_eq!(b.true_values().len(), size as usize);
        assert!(b.true_values().iter().all(|row| row.len() == size as usize));
        assert_eq!(
            b.assigned_values(),
            &vec![vec![Mark::Unmarked; size as usize]; size as usize]
        );
        assert_eq!(b.selected_square(), (0, 0));
        assert_eq!(b.invalid_tile(), None);
        assert_eq!(b.row_counts().len(), size as usize);
        assert_eq!(b.column_counts().len(), size as usize);
    }
}

#[test]
fn generated_clues_add_up_to_the_filled_cells() {
    for _ in 0..20 {
        let b = BoardState::from(GameSettings { size: 10 });
        let solution = b.true_values();
        for i in 0..10 {
            let in_row = solution[i].iter().filter(|cell| **cell).count();
            let row_sum: usize = b.row_counts()[i].iter().map(|run| *run as usize).sum();
            assert_eq!(row_sum, in_row);
            let in_column = solution.iter().filter(|row| row[i]).count();
            let column_sum: usize = b.column_counts()[i].iter().map(|run| *run as usize).sum();
            assert_eq!(column_sum, in_column);
        }
    }
}

#[test]
fn generated_boards_differ() {
    let first = BoardState::from(GameSettings { size: 20 });
    let differs = (0..8).any(|_| {
        BoardState::from(GameSettings { size: 20 }).true_values() != first.true_values()
    });
    assert!(differs);
}

#[test]
fn toggle_cycles_through_the_three_marks() {
    let mut b = diagonal();
    assert_eq!(b.assigned_values()[1][0], Mark::Unmarked);
    assert_eq!(b.toggle(1, 0), Ok(()));
    assert_eq!(b.assigned_values()[1][0], Mark::Filled);
    assert_eq!(b.toggle(1, 0), Ok(()));
    assert_eq!(b.assigned_values()[1][0], Mark::Empty);
    assert_eq!(b.toggle(1, 0), Ok(()));
    assert_eq!(b.assigned_values()[1][0], Mark::Unmarked);
}

#[test]
fn toggle_touches_one_cell_only() {
    let mut b = board(vec![vec![false; 3]; 3]);
    assert_eq!(b.toggle(2, 1), Ok(()));
    let mut expected = vec![vec![Mark::Unmarked; 3]; 3];
    expected[2][1] = Mark::Filled;
    assert_eq!(b.assigned_values(), &expected);
    assert_eq!(b.selected_square(), (0, 0));
    assert_eq!(b.invalid_tile(), None);
    assert_eq!(b.true_values(), &vec![vec![false; 3]; 3]);
}

#[test]
fn three_toggles_give_the_board_back() {
    let mut b = board(vec![vec![true, false, true]; 3]);
    mark(&mut b, 0, 0, true);
    mark(&mut b, 1, 2, false);
    for row in 0..3 {
        for col in 0..3 {
            let before = b.assigned_values().clone();
            for _ in 0..3 {
                assert_eq!(b.toggle(row, col), Ok(()));
            }
            assert_eq!(b.assigned_values(), &before);
        }
    }
}

#[test]
fn toggle_off_the_board_is_refused() {
    let mut b = diagonal();
    mark(&mut b, 0, 1, true);
    let before = b.assigned_values().clone();
    assert_eq!(b.toggle(2, 0), Err(BoardError::OutOfBounds));
    assert_eq!(b.toggle(0, 2), Err(BoardError::OutOfBounds));
    assert_eq!(b.toggle(255, 255), Err(BoardError::OutOfBounds));
    assert_eq!(b.assigned_values(), &before);
}

#[test]
fn cursor_moves_one_cell() {
    let mut b = board(vec![vec![false; 3]; 3]);
    b.move_cursor(Direction::Down);
    assert_eq!(b.selected_square(), (1, 0));
    b.move_cursor(Direction::Right);
    assert_eq!(b.selected_square(), (1, 1));
    b.move_cursor(Direction::Up);
    assert_eq!(b.selected_square(), (0, 1));
    b.move_cursor(Direction::Left);
    assert_eq!(b.selected_square(), (0, 0));
}

#[test]
fn cursor_stops_at_the_edges() {
    let mut b = board(vec![vec![false; 3]; 3]);
    b.move_cursor(Direction::Up);
    assert_eq!(b.selected_square(), (0, 0));
    b.move_cursor(Direction::Left);
    assert_eq!(b.selected_square(), (0, 0));
    for _ in 0..5 {
        b.move_cursor(Direction::Down);
    }
    assert_eq!(b.selected_square(), (2, 0));
    for _ in 0..5 {
        b.move_cursor(Direction::Right);
    }
    assert_eq!(b.selected_square(), (2, 2));
}

#[test]
fn cursor_on_a_board_of_one_cell_stays() {
    let mut b = board(vec![vec![true]]);
    for dir in [Direction::Up, Direction::Down, Direction::Left, Direction::Right] {
        b.move_cursor(dir);
        assert_eq!(b.selected_square(), (0, 0));
    }
}

#[test]
fn cursor_never_leaves_the_board() {
    let mut b = board(vec![vec![false; 4]; 4]);
    let dirs = [Direction::Right, Direction::Down, Direction::Left, Direction::Up];
    let mut seed: u32 = 12345;
    for _ in 0..2000 {
        seed = seed.wrapping_mul(1103515245).wrapping_add(12345);
        let dir = dirs[((seed >> 16) % 4) as usize];
        b.move_cursor(dir);
        let (row, col) = b.selected_square();
        assert!(row < 4 && col < 4);
    }
}

#[test]
fn cursor_on_the_largest_board() {
    let mut b = board(vec![vec![false; 255]; 255]);
    for _ in 0..300 {
        b.move_cursor(Direction::Down);
        b.move_cursor(Direction::Right);
    }
    assert_eq!(b.selected_square(), (254, 254));
}

#[test]
fn unmarked_board_is_wrong_in_the_first_cell() {
    for size in 1..6usize {
        let b = board(vec![vec![true; size]; size]);
        assert_eq!(b.check_assigned(), BoardValidity::Invalid(0, 0));
        let b = board(vec![vec![false; size]; size]);
        assert_eq!(b.check_assigned(), BoardValidity::Invalid(0, 0));
    }
}

#[test]
fn scenario_one_cell() {
    let mut b = board(vec![vec![true]]);
    assert_eq!(b.toggle(0, 0), Ok(()));
    assert_eq!(b.assigned_values()[0][0], Mark::Filled);
    assert_eq!(b.check_assigned(), BoardValidity::Valid);
}

#[test]
fn scenario_diagonal() {
    let mut b = diagonal();
    mark(&mut b, 0, 0, true);
    mark(&mut b, 0, 1, false);
    mark(&mut b, 1, 0, false);
    mark(&mut b, 1, 1, true);
    assert_eq!(b.check_assigned(), BoardValidity::Valid);
    assert_eq!(b.toggle(1, 1), Ok(()));
    assert_eq!(b.assigned_values()[1][1], Mark::Empty);
    assert_eq!(b.check_assigned(), BoardValidity::Invalid(1, 1));
}

#[test]
fn check_reports_the_first_wrong_cell_row_by_row() {
    let mut b = board(vec![vec![true, false, true]; 3]);
    solve(&mut b);
    assert_eq!(b.check_assigned(), BoardValidity::Valid);
    // Wrong in (2, 0) and in (1, 2): the one in the earlier row is reported.
    assert_eq!(b.toggle(2, 0), Ok(()));
    assert_eq!(b.toggle(1, 2), Ok(()));
    assert_eq!(b.check_assigned(), BoardValidity::Invalid(1, 2));
    // Wrong in (1, 1) too: the one in the earlier column is reported.
    assert_eq!(b.toggle(1, 1), Ok(()));
    assert_eq!(b.check_assigned(), BoardValidity::Invalid(1, 1));
}

#[test]
fn check_takes_a_filled_mark_on_an_empty_cell_for_wrong() {
    let mut b = board(vec![vec![false]]);
    mark(&mut b, 0, 0, true);
    assert_eq!(b.check_assigned(), BoardValidity::Invalid(0, 0));
    assert_eq!(b.toggle(0, 0), Ok(()));
    assert_eq!(b.check_assigned(), BoardValidity::Valid);
    assert_eq!(b.toggle(0, 0), Ok(()));
    assert_eq!(b.check_assigned(), BoardValidity::Invalid(0, 0));
}

#[test]
fn check_changes_nothing() {
    let mut b = diagonal();
    mark(&mut b, 0, 0, true);
    let marks = b.assigned_values().clone();
    assert_eq!(b.check_assigned(), BoardValidity::Invalid(0, 1));
    assert_eq!(b.assigned_values(), &marks);
    assert_eq!(b.invalid_tile(), None);
    assert_eq!(b.selected_square(), (0, 0));
}

#[test]
fn recorded_mismatch_is_kept_and_overwritten() {
    let mut b = diagonal();
    b.set_invalid_tile(Some((1, 0)));
    assert_eq!(b.invalid_tile(), Some((1, 0)));
    b.set_invalid_tile(Some((0, 1)));
    assert_eq!(b.invalid_tile(), Some((0, 1)));
    b.set_invalid_tile(None);
    assert_eq!(b.invalid_tile(), None);
}

#[test]
fn clone_keeps_everything() {
    let mut b = board(vec![vec![true, false, true], vec![false; 3], vec![true; 3]]);
    mark(&mut b, 1, 1, false);
    b.move_cursor(Direction::Down);
    b.set_invalid_tile(Some((2, 2)));
    let copy = b.clone();
    assert_eq!(copy.size(), b.size());
    assert_eq!(copy.true_values(), b.true_values());
    assert_eq!(copy.assigned_values(), b.assigned_values());
    assert_eq!(copy.row_counts(), b.row_counts());
    assert_eq!(copy.column_counts(), b.column_counts());
    assert_eq!(copy.selected_square(), (1, 0));
    assert_eq!(copy.invalid_tile(), Some((2, 2)));
}
