use sudoku::{Item, SudokuGrid, Value};

#[test]
fn number_is_shown_as_its_digit() {
    for (raw, text) in [(1u8, "1"), (2, "2"), (3, "3"), (4, "4"), (5, "5"), (6, "6"), (7, "7"), (8, "8"), (9, "9")] {
        for fixed in [false, true] {
            let cell = Item::Number { fixed, value: Value::new(raw).unwrap() };
            assert_eq!(cell.to_text(), text);
        }
    }
}

#[test]
fn blank_cell_is_shown_as_empty_brackets() {
    assert_eq!(Item::blank().to_text(), "[]");
}

#[test]
fn notes_are_shown_in_slot_order() {
    let mut cell = Item::blank();
    cell.toggle_note(7).unwrap();
    cell.toggle_note(1).unwrap();
    cell.toggle_note(4).unwrap();
    assert_eq!(cell.to_text(), "[147]");
    cell.toggle_note(4).unwrap();
    assert_eq!(cell.to_text(), "[17]");
    for raw in [2u8, 3, 4, 5, 6, 8, 9] {
        cell.toggle_note(raw).unwrap();
    }
    assert_eq!(cell.to_text(), "[123456789]");
}

#[test]
fn blank_grid_is_shown_row_by_row() {
    let line = "[], [], [], [], [], [], [], [], []\n";
    assert_eq!(SudokuGrid::new().to_text(), line.repeat(9));
}

#[test]
fn example_solution_is_shown_row_by_row() {
    let expected = "1, 2, 3, 4, 5, 6, 7, 8, 9\n\
                    4, 5, 6, 7, 8, 9, 1, 2, 3\n\
                    7, 8, 9, 1, 2, 3, 4, 5, 6\n\
                    2, 3, 4, 5, 6, 7, 8, 9, 1\n\
                    5, 6, 7, 8, 9, 1, 2, 3, 4\n\
                    8, 9, 1, 2, 3, 4, 5, 6, 7\n\
                    3, 4, 5, 6, 7, 8, 9, 1, 2\n\
                    6, 7, 8, 9, 1, 2, 3, 4, 5\n\
                    9, 1, 2, 3, 4, 5, 6, 7, 8\n";
    assert_eq!(SudokuGrid::generate_example_solution().to_text(), expected);
}

#[test]
fn grid_with_numbers_and_notes_is_shown() {
    let mut grid = SudokuGrid::new();
    grid.set_fixed_number(7, 0, 0).unwrap();
    grid.toggle_note(2, 0, 8).unwrap();
    grid.toggle_note(9, 0, 8).unwrap();
    grid.toggle_number(3, 8, 4).unwrap();
    let text = grid.to_text();
    let lines: Vec<&str> = text.lines().collect();
    assert_eq!(lines.len(), 9);
    assert_eq!(lines[0], "7, [], [], [], [], [], [], [], [29]");
    assert_eq!(lines[1], "[], [], [], [], [], [], [], [], []");
    assert_eq!(lines[8], "[], [], [], [], 3, [], [], [], []");
    assert!(text.ends_with('\n'));
}
