use sudoku::{Item, SudokuError, SudokuGrid, Value};

fn value_of(raw: u8) -> Value {
    Value::new(raw).unwrap()
}

#[test]
fn new_grid_is_blank() {
    let grid = SudokuGrid::new();
    for row in 0..9 {
        for col in 0..9 {
            assert_eq!(grid.sudoku[row][col], Item::Notes([None; 9]));
        }
    }
}

#[test]
fn set_fixed_number_end_to_end() {
    let mut grid = SudokuGrid::new();
    assert_eq!(grid.set_fixed_number(7, 0, 0), Ok(()));
    assert_eq!(grid.sudoku[0][0], 7);
    assert_eq!(grid.sudoku[0][0], Item::Number { fixed: true, value: value_of(7) });
    assert!(matches!(grid.sudoku[0][0], Item::Number { fixed: true, .. }));
    for row in 0..9 {
        for col in 0..9 {
            if (row, col) != (0, 0) {
                assert_eq!(grid.sudoku[row][col], Item::Notes([None; 9]));
            }
        }
    }
}

#[test]
fn grid_toggle_note_reaches_one_cell() {
    let mut grid = SudokuGrid::new();
    assert_eq!(grid.toggle_note(4, 8, 2), Ok(()));
    let mut expected = Item::blank();
    expected.toggle_note(4).unwrap();
    assert_eq!(grid.sudoku[8][2], expected);
    assert_eq!(grid.sudoku[2][8], Item::blank());
    assert_eq!(grid.toggle_note(4, 8, 2), Ok(()));
    assert_eq!(grid.sudoku[8][2], Item::blank());
}

#[test]
fn grid_toggle_number_does_not_force() {
    let mut grid = SudokuGrid::new();
    grid.set_fixed_number(3, 4, 4).unwrap();
    assert_eq!(grid.toggle_number(3, 4, 4), Ok(()));
    assert_eq!(grid.sudoku[4][4], 3);
    assert_eq!(grid.toggle_number(5, 4, 4), Ok(()));
    assert_eq!(grid.sudoku[4][4], 3);

    assert_eq!(grid.toggle_number(5, 4, 5), Ok(()));
    assert_eq!(grid.sudoku[4][5], 5);
    assert!(matches!(grid.sudoku[4][5], Item::Number { fixed: false, .. }));
    assert_eq!(grid.toggle_number(6, 4, 5), Ok(()));
    assert_eq!(grid.sudoku[4][5], 6);
    assert_eq!(grid.toggle_number(6, 4, 5), Ok(()));
    assert_eq!(grid.sudoku[4][5], Item::blank());
}

#[test]
fn grid_rejects_what_is_no_digit() {
    let mut grid = SudokuGrid::new();
    grid.toggle_note(2, 1, 1).unwrap();
    let before = grid.sudoku;
    assert_eq!(grid.toggle_note(0, 1, 1), Err(SudokuError::OutOfRange(0)));
    assert_eq!(grid.toggle_number(10, 1, 1), Err(SudokuError::OutOfRange(10)));
    assert_eq!(grid.set_fixed_number(99, 1, 1), Err(SudokuError::OutOfRange(99)));
    assert_eq!(grid.sudoku, before);
}

#[test]
fn check_guess_compares_against_a_fixed_solution() {
    let solution = Item::Number { fixed: true, value: value_of(5) };
    let right = Item::Number { fixed: false, value: value_of(5) };
    let wrong = Item::Number { fixed: false, value: value_of(6) };
    assert_eq!(SudokuGrid::check_guess(&right, &solution), Ok(true));
    assert_eq!(SudokuGrid::check_guess(&solution, &solution), Ok(true));
    assert_eq!(SudokuGrid::check_guess(&wrong, &solution), Ok(false));
    assert_eq!(SudokuGrid::check_guess(&Item::blank(), &solution), Ok(false));
}

#[test]
fn check_guess_rejects_a_solution_that_is_not_fixed() {
    let guess = Item::Number { fixed: false, value: value_of(5) };
    let entered = Item::Number { fixed: false, value: value_of(5) };
    assert_eq!(SudokuGrid::check_guess(&guess, &entered), Err(SudokuError::InvalidSolution));
    assert_eq!(SudokuGrid::check_guess(&guess, &Item::blank()), Err(SudokuError::InvalidSolution));
    let mut notes = Item::blank();
    notes.toggle_note(5).unwrap();
    assert_eq!(SudokuGrid::check_guess(&notes, &notes), Err(SudokuError::InvalidSolution));
}

#[test]
fn example_solution_is_the_shifted_pattern() {
    let expected: [[u8; 9]; 9] = [
        [1, 2, 3, 4, 5, 6, 7, 8, 9],
        [4, 5, 6, 7, 8, 9, 1, 2, 3],
        [7, 8, 9, 1, 2, 3, 4, 5, 6],
        [2, 3, 4, 5, 6, 7, 8, 9, 1],
        [5, 6, 7, 8, 9, 1, 2, 3, 4],
        [8, 9, 1, 2, 3, 4, 5, 6, 7],
        [3, 4, 5, 6, 7, 8, 9, 1, 2],
        [6, 7, 8, 9, 1, 2, 3, 4, 5],
        [9, 1, 2, 3, 4, 5, 6, 7, 8],
    ];
    let grid = SudokuGrid::generate_example_solution();
    for row in 0..9 {
        for col in 0..9 {
            assert_eq!(grid.sudoku[row][col], expected[row][col]);
            assert!(matches!(grid.sudoku[row][col], Item::Number { fixed: false, .. }));
        }
    }
}
