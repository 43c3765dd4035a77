use crate::grid::SudokuGrid;
use crate::item::{Item, ItemView};
use crate::value::Value;
use vstd::prelude::*;
use vstd::string::*;

verus! {

/// The character that shows the digit `d`.
pub open spec fn digit_char(d: int) -> char {
    seq!['1', '2', '3', '4', '5', '6', '7', '8', '9'][d - 1]
}

/// The notes in `slots`, slot by slot: the character of each digit that is set,
/// nothing for an empty slot.
pub open spec fn notes_text(slots: Seq<Option<int>>) -> Seq<char>
    decreases slots.len(),
{
    if slots.len() == 0 {
        Seq::empty()
    } else {
        notes_text(slots.drop_last()) + match slots.last() {
            Some(d) => seq![digit_char(d)],
            None => Seq::empty(),
        }
    }
}

/// The cells of `row`, each as `ItemView::text` shows it, with a comma and a
/// space between neighbours.
pub open spec fn row_text(row: Seq<ItemView>) -> Seq<char>
    decreases row.len(),
{
    if row.len() == 0 {
        Seq::empty()
    } else if row.len() == 1 {
        row[0].text()
    } else {
        row_text(row.drop_last()) + seq![',', ' '] + row.last().text()
    }
}

/// The rows of `board`, each as `row_text` shows it and ended by a line feed.
pub open spec fn board_text(board: Seq<Seq<ItemView>>) -> Seq<char>
    decreases board.len(),
{
    if board.len() == 0 {
        Seq::empty()
    } else {
        board_text(board.drop_last()) + row_text(board.last()) + seq!['\n']
    }
}

impl ItemView {
    /// How the cell is shown: a number as its digit; notes as the digits that
    /// are set, in ascending slot order, between square brackets.
    pub open spec fn text(self) -> Seq<char> {
        match self {
            ItemView::Number { value, .. } => seq![digit_char(value)],
            ItemView::Notes(slots) => seq!['['] + notes_text(slots) + seq![']'],
        }
    }
}

/// The digit of `value` as a string of one character.
fn digit_str(value: Value) -> (s: &'static str)
    ensures
        s@ == seq![digit_char(value@)],
{
    let digits = "123456789";
    proof {
        reveal_strlit("123456789");
    }
    let at: usize = (value.get() - 1) as usize;
    let s = digits.substring_ascii(at, at + 1);
    assert(s@ =~= seq![digit_char(value@)]);
    s
}

impl Item {
    /// The cell as text: a number as its digit; notes as the digits that are
    /// set, in ascending order, between square brackets, so `[]` when none is.
    pub fn to_text(&self) -> (text: String)
        ensures
            text@ == self@.text(),
    {
        match self {
            Item::Number { value, .. } => String::from_str(digit_str(*value)),
            Item::Notes(slots) => {
                let mut text = String::from_str("[");
                proof {
                    reveal_strlit("[");
                    reveal_strlit("]");
                    assert(text@ =~= seq!['['] + notes_text(self@->Notes_0.take(0)));
                }
                for i in 0..9
                    invariant
                        *self == Item::Notes(*slots),
                        text@ == seq!['['] + notes_text(self@->Notes_0.take(i as int)),
                {
                    let ghost shown = self@->Notes_0.take(i as int);
                    let ghost next = self@->Notes_0.take(i + 1);
                    assert(next.drop_last() =~= shown);
                    if let Some(note) = slots[i] {
                        text.append(digit_str(note));
                    }
                    assert(text@ =~= seq!['['] + notes_text(next));
                }
                assert(self@->Notes_0.take(9) =~= self@->Notes_0);
                text.append("]");
                text
            },
        }
    }
}

/// The views of the cells of `row`, in order.
spec fn row_view(row: [Item; 9]) -> Seq<ItemView> {
    Seq::new(9, |col: int| row[col]@)
}

/// The cells of `row` as text, with a comma and a space between neighbours.
fn row_to_text(row: &[Item; 9]) -> (text: String)
    ensures
        text@ == row_text(row_view(*row)),
{
    let mut text = row[0].to_text();
    proof {
        assert(row_view(*row).take(1)[0] == row[0]@);
    }
    for col in 1..9
        invariant
            text@ == row_text(row_view(*row).take(col as int)),
    {
        let ghost shown = row_view(*row).take(col as int);
        let ghost next = row_view(*row).take(col + 1);
        assert(next.drop_last() =~= shown);
        assert(next.last() == row[col as int]@);
        proof {
            reveal_strlit(", ");
        }
        text.append(", ");
        let cell = row[col].to_text();
        text.append(cell.as_str());
        assert(text@ =~= row_text(next));
    }
    assert(row_view(*row).take(9) =~= row_view(*row));
    text
}

impl SudokuGrid {
    /// The board as text: one line for each row, the cells of a row as
    /// `Item::to_text` shows them with a comma and a space between
    /// neighbours, and a line feed after every row.
    pub fn to_text(&self) -> (text: String)
        ensures
            text@ == board_text(self@),
    {
        let mut text = String::new();
        assert(text@ =~= board_text(self@.take(0)));
        for row in 0..9
            invariant
                text@ == board_text(self@.take(row as int)),
        {
            let ghost shown = self@.take(row as int);
            let ghost next = self@.take(row + 1);
            assert(next.drop_last() =~= shown);
            assert(next.last() =~= row_view(self.sudoku[row as int]));
            let line = row_to_text(&self.sudoku[row]);
            text.append(line.as_str());
            proof {
                reveal_strlit("\n");
            }
            text.append("\n");
            assert(text@ =~= board_text(next));
        }
        assert(self@.take(9) =~= self@);
        text
    }
}

} // verus!
