use crate::error::SudokuError;
use crate::item::{Item, ItemView};
use crate::value::is_digit;
use vstd::prelude::*;

verus! {

/// The 9×9 board: nine rows of nine cells.
#[derive(Debug)]
pub struct SudokuGrid {
    pub sudoku: [[Item; 9]; 9],
}

/// The board on which every cell is blank.
pub open spec fn blank_board() -> Seq<Seq<ItemView>> {
    Seq::new(9, |row: int| Seq::new(9, |col: int| ItemView::blank()))
}

/// `board` with the cell at `row` and `col` replaced by `cell`.
pub open spec fn with_cell(
    board: Seq<Seq<ItemView>>,
    row: int,
    col: int,
    cell: ItemView,
) -> Seq<Seq<ItemView>> {
    board.update(row, board[row].update(col, cell))
}

impl View for SudokuGrid {
    type V = Seq<Seq<ItemView>>;

    /// The board as nine rows of nine cells, each cell by its own view.
    open spec fn view(&self) -> Seq<Seq<ItemView>> {
        Seq::new(9, |row: int| Seq::new(9, |col: int| self.sudoku[row][col]@))
    }
}

/// The digit at `row` and `col` of the example board: the first row counts
/// from 1 to 9, each next row of a band starts three digits later, and each
/// next band starts one digit later.
pub open spec fn example_digit(row: int, col: int) -> int {
    (3 * row + row / 3 + col) % 9 + 1
}

/// The example board: every cell a number that is not fixed, with the digit
/// that `example_digit` gives.
pub open spec fn example_board() -> Seq<Seq<ItemView>> {
    Seq::new(
        9,
        |row: int|
            Seq::new(9, |col: int| ItemView::Number { fixed: false, value: example_digit(row, col) }),
    )
}

/// The cell at `row` and `col` while the example board is filled digit by
/// digit, when the digits below `digit` have been entered: the number of
/// the example board if its digit is among them, else still blank.
spec fn example_cell_before(row: int, col: int, digit: int) -> ItemView {
    if example_digit(row, col) < digit {
        ItemView::Number { fixed: false, value: example_digit(row, col) }
    } else {
        ItemView::blank()
    }
}

/// Where `digit` stands in each row of the example board.
proof fn lemma_example_columns(digit: int)
    requires
        is_digit(digit),
    ensures
        forall|col: int| 0 <= col < 9 ==> (#[trigger] example_digit(0, col) == digit <==> col == digit - 1),
        forall|col: int| 0 <= col < 9 ==> (#[trigger] example_digit(1, col) == digit <==> col == (digit + 5) % 9),
        forall|col: int| 0 <= col < 9 ==> (#[trigger] example_digit(2, col) == digit <==> col == (digit + 2) % 9),
        forall|col: int| 0 <= col < 9 ==> (#[trigger] example_digit(3, col) == digit <==> col == (digit + 7) % 9),
        forall|col: int| 0 <= col < 9 ==> (#[trigger] example_digit(4, col) == digit <==> col == (digit + 4) % 9),
        forall|col: int| 0 <= col < 9 ==> (#[trigger] example_digit(5, col) == digit <==> col == (digit + 1) % 9),
        forall|col: int| 0 <= col < 9 ==> (#[trigger] example_digit(6, col) == digit <==> col == (digit + 6) % 9),
        forall|col: int| 0 <= col < 9 ==> (#[trigger] example_digit(7, col) == digit <==> col == (digit + 3) % 9),
        forall|col: int| 0 <= col < 9 ==> (#[trigger] example_digit(8, col) == digit <==> col == digit % 9),
{
}

/// Whether every cell of `board` is well formed.
pub open spec fn board_wf(board: Seq<Seq<ItemView>>) -> bool {
    forall|row: int, col: int| 0 <= row < 9 && 0 <= col < 9 ==> (#[trigger] board[row][col]).wf()
}

/// Two boards that differ in at most the cell at `row` and `col`: the later
/// one is the earlier one with that cell replaced, and the same board if
/// that cell is the same too.
proof fn lemma_one_cell_replaced(before: SudokuGrid, after: SudokuGrid, row: int, col: int)
    requires
        0 <= row < 9,
        0 <= col < 9,
        forall|r: int, c: int|
            0 <= r < 9 && 0 <= c < 9 && (r != row || c != col) ==> after.sudoku[r][c]
                == before.sudoku[r][c],
    ensures
        after@ == with_cell(before@, row, col, after.sudoku[row][col]@),
        after.sudoku[row][col] == before.sudoku[row][col] ==> after == before,
        board_wf(before@) && after.sudoku[row][col]@.wf() ==> board_wf(after@),
{
    assert(after@ =~~= with_cell(before@, row, col, after.sudoku[row][col]@));
    if after.sudoku[row][col] == before.sudoku[row][col] {
        assert forall|r: int| 0 <= r < 9 implies after.sudoku[r] == before.sudoku[r] by {
            assert(after.sudoku[r] =~= before.sudoku[r]);
        }
        assert(after.sudoku =~= before.sudoku);
    }
    if board_wf(before@) && after.sudoku[row][col]@.wf() {
        assert forall|r: int, c: int| 0 <= r < 9 && 0 <= c < 9 implies (#[trigger] after@[r][c]).wf() by {
            if r != row || c != col {
                assert(before@[r][c].wf());
            }
        }
    }
}

impl SudokuGrid {
    /// A board of blank cells.
    pub fn new() -> (r: SudokuGrid)
        ensures
            r@ == blank_board(),
            board_wf(r@),
    {
        let r = SudokuGrid { sudoku: [[Item::blank();9];9] };
        assert(r@ =~~= blank_board());
        r
    }

    /// A board filled with the example pattern: the digits 1 to 9 in every
    /// row, each row shifted against the one above. The numbers are entered
    /// as a player would enter them, so none is fixed.
    pub fn generate_example_solution() -> (r: SudokuGrid)
        ensures
            r@ == example_board(),
            board_wf(r@),
    {
        let mut example_grid = SudokuGrid::new();
        for i in 1..10usize
            invariant
                forall|row: int, col: int|
                    0 <= row < 9 && 0 <= col < 9 ==> #[trigger] example_grid@[row][col]
                        == example_cell_before(row, col, i as int),
        {
            let ghost before = example_grid@;
            proof {
                lemma_example_columns(i as int);
            }
            example_grid.enter(i as u8, 0, i - 1);
            example_grid.enter(i as u8, 1, (i + 5) % 9);
            example_grid.enter(i as u8, 2, (i + 2) % 9);
            example_grid.enter(i as u8, 3, (i + 7) % 9);
            example_grid.enter(i as u8, 4, (i + 4) % 9);
            example_grid.enter(i as u8, 5, (i + 1) % 9);
            example_grid.enter(i as u8, 6, (i + 6) % 9);
            example_grid.enter(i as u8, 7, (i + 3) % 9);
            example_grid.enter(i as u8, 8, i % 9);
            assert forall|row: int, col: int|
                0 <= row < 9 && 0 <= col < 9 implies #[trigger] example_grid@[row][col]
                == example_cell_before(row, col, i + 1) by {
                assert(before[row][col] == example_cell_before(row, col, i as int));
            }
        }
        assert(example_grid@ =~~= example_board());
        example_grid
    }

    /// Enters `value` over the notes at `row` and `col`.
    fn enter(&mut self, value: u8, row: usize, col: usize)
        requires
            is_digit(value as int),
            row < 9,
            col < 9,
            old(self)@[row as int][col as int] is Notes,
        ensures
            final(self)@[row as int][col as int] == (ItemView::Number { fixed: false, value: value as int }),
            forall|r: int, c: int|
                0 <= r < 9 && 0 <= c < 9 && (r != row || c != col)
                    ==> #[trigger] final(self)@[r][c] == old(self)@[r][c],
    {
        let _ = self.sudoku[row][col].toggle_number(value, true);
    }

    /// Whether `guess` equals `solution`, which has to be a fixed number:
    /// any other `solution` is turned down.
    pub fn check_guess(guess: &Item, solution: &Item) -> (r: Result<bool, SudokuError>)
        ensures
            solution@.is_fixed() ==> r == Ok::<bool, SudokuError>(guess@.same_as(solution@)),
            !solution@.is_fixed() ==> r == Err::<bool, SudokuError>(SudokuError::InvalidSolution),
    {
        if let Item::Number { fixed: true, .. } = solution {
            Ok(guess == solution)
        } else {
            Err(SudokuError::InvalidSolution)
        }
    }

    /// Toggles the note for `value` in the cell at `row` and `col`, as
    /// `Item::toggle_note` does. No other cell changes.
    pub fn toggle_note(&mut self, value: u8, row: usize, col: usize) -> (r: Result<(), SudokuError>)
        requires
            row < 9,
            col < 9,
        ensures
            is_digit(value as int) ==> r is Ok && final(self)@ == with_cell(
                old(self)@,
                row as int,
                col as int,
                old(self)@[row as int][col as int].toggle_note(value as int),
            ),
            !is_digit(value as int) ==> r == Err::<(), SudokuError>(SudokuError::OutOfRange(value))
                && *final(self) == *old(self),
            board_wf(old(self)@) ==> board_wf(final(self)@),
    {
        let r = self.sudoku[row][col].toggle_note(value);
        proof {
            assert(old(self)@[row as int][col as int] == old(self).sudoku[row as int][col as int]@);
            lemma_one_cell_replaced(*old(self), *self, row as int, col as int);
        }
        r
    }

    /// Enters `value` as the number of the cell at `row` and `col`, as
    /// `Item::toggle_number` does without force: a fixed number stays. No
    /// other cell changes.
    pub fn toggle_number(&mut self, value: u8, row: usize, col: usize) -> (r: Result<(), SudokuError>)
        requires
            row < 9,
            col < 9,
        ensures
            old(self)@[row as int][col as int].resists(false) ==> r is Ok && *final(self) == *old(self),
            !old(self)@[row as int][col as int].resists(false) && is_digit(value as int) ==> r is Ok
                && final(self)@ == with_cell(
                    old(self)@,
                    row as int,
                    col as int,
                    old(self)@[row as int][col as int].toggle_number(value as int, false),
                ),
            !old(self)@[row as int][col as int].resists(false) && !is_digit(value as int) ==> r == Err::<
                (),
                SudokuError,
            >(SudokuError::OutOfRange(value)) && *final(self) == *old(self),
            board_wf(old(self)@) ==> board_wf(final(self)@),
    {
        let r = self.sudoku[row][col].toggle_number(value, false);
        proof {
            assert(old(self)@[row as int][col as int] == old(self).sudoku[row as int][col as int]@);
            lemma_one_cell_replaced(*old(self), *self, row as int, col as int);
        }
        r
    }

    /// Places the digit `value` of the puzzle itself in the cell at `row` and
    /// `col`, as `Item::set_fixed_number` does. No other cell changes.
    pub fn set_fixed_number(&mut self, value: u8, row: usize, col: usize) -> (r: Result<(), SudokuError>)
        requires
            row < 9,
            col < 9,
        ensures
            is_digit(value as int) ==> r is Ok && final(self)@ == with_cell(
                old(self)@,
                row as int,
                col as int,
                old(self)@[row as int][col as int].set_fixed_number(value as int),
            ),
            !is_digit(value as int) ==> r == Err::<(), SudokuError>(SudokuError::OutOfRange(value))
                && *final(self) == *old(self),
            board_wf(old(self)@) ==> board_wf(final(self)@),
    {
        let r = self.sudoku[row][col].set_fixed_number(value);
        proof {
            assert(old(self)@[row as int][col as int] == old(self).sudoku[row as int][col as int]@);
            lemma_one_cell_replaced(*old(self), *self, row as int, col as int);
        }
        r
    }
}

} // verus!
