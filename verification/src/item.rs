use crate::error::SudokuError;
use crate::value::{is_digit, Value};
use vstd::prelude::*;

verus! {

/// What a cell holds, as mathematics: the digits as integers and the nine note
/// slots as a sequence. Slot `i` stands for the digit `i + 1`.
pub enum ItemView {
    Number { fixed: bool, value: int },
    Notes(Seq<Option<int>>),
}

/// Nine empty note slots.
pub open spec fn empty_slots() -> Seq<Option<int>> {
    Seq::new(9, |i: int| None::<int>)
}

impl ItemView {
    /// The blank cell: notes with no candidate set.
    pub open spec fn blank() -> ItemView {
        ItemView::Notes(empty_slots())
    }

    /// A number holds a digit from 1 to 9. Notes have nine slots, and slot `i`
    /// is empty or holds the digit `i + 1`.
    pub open spec fn wf(self) -> bool {
        match self {
            ItemView::Number { value, .. } => is_digit(value),
            ItemView::Notes(slots) => {
                &&& slots.len() == 9
                &&& forall|i: int| 0 <= i < 9 ==> (#[trigger] slots[i] matches Some(d) ==> d == i + 1)
            },
        }
    }

    /// Equality of cells: two numbers are equal when their digits are, whether
    /// fixed or not; two sets of notes are equal when every slot agrees; a
    /// number never equals notes.
    pub open spec fn same_as(self, other: ItemView) -> bool {
        match (self, other) {
            (ItemView::Number { value: a, .. }, ItemView::Number { value: b, .. }) => a == b,
            (ItemView::Notes(a), ItemView::Notes(b)) => a == b,
            _ => false,
        }
    }

    /// Equality of a cell and a raw digit: the cell is a number with that digit.
    pub open spec fn shows(self, raw: int) -> bool {
        self matches ItemView::Number { value, .. } && value == raw
    }

    /// The cell after a digit of the puzzle itself was placed in it.
    pub open spec fn set_fixed_number(self, raw: int) -> ItemView {
        ItemView::Number { fixed: true, value: raw }
    }

    /// Whether the cell is a number that belongs to the puzzle itself.
    pub open spec fn is_fixed(self) -> bool {
        self matches ItemView::Number { fixed, .. } && fixed
    }

    /// Whether entering a number leaves the cell untouched: it is fixed and
    /// the change is not forced.
    pub open spec fn resists(self, force: bool) -> bool {
        self.is_fixed() && !force
    }

    /// The cell after the player entered `raw` as its number. A fixed number
    /// stays unless `force` is set; the number already there is cleared to a
    /// blank cell; any other number is overwritten; notes give way to the
    /// number.
    pub open spec fn toggle_number(self, raw: int, force: bool) -> ItemView {
        match self {
            ItemView::Number { fixed, value } => {
                if fixed && !force {
                    self
                } else if value == raw {
                    ItemView::blank()
                } else {
                    ItemView::Number { fixed, value: raw }
                }
            },
            ItemView::Notes(_) => ItemView::Number { fixed: false, value: raw },
        }
    }

    /// The cell after the player toggled the note for `raw`. A number gives
    /// way to notes with that one candidate; in notes, the slot of `raw` flips
    /// and the others stay.
    pub open spec fn toggle_note(self, raw: int) -> ItemView {
        match self {
            ItemView::Number { .. } => ItemView::Notes(empty_slots().update(raw - 1, Some(raw))),
            ItemView::Notes(slots) => ItemView::Notes(
                slots.update(
                    raw - 1,
                    if slots[raw - 1] is None {
                        Some(raw)
                    } else {
                        None
                    },
                ),
            ),
        }
    }
}

/// One square of the grid. It holds either a number, which is `fixed` when it
/// belongs to the puzzle and not when the player entered it, or the player's
/// notes: nine slots, of which slot `i` is empty or holds the digit `i + 1`.
#[derive(Copy, Clone, Debug, Eq)]
pub enum Item {
    Number { fixed: bool, value: Value },
    Notes([Option<Value>; 9]),
}

/// The digit in a note slot, if any.
pub open spec fn slot_view(slot: Option<Value>) -> Option<int> {
    match slot {
        Some(v) => Some(v@),
        None => None,
    }
}

impl View for Item {
    type V = ItemView;

    open spec fn view(&self) -> ItemView {
        match *self {
            Item::Number { fixed, value } => ItemView::Number { fixed, value: value@ },
            Item::Notes(slots) => ItemView::Notes(Seq::new(9, |i: int| slot_view(slots[i]))),
        }
    }
}

impl Item {
    /// The blank cell: notes with no candidate set.
    pub fn blank() -> (r: Item)
        ensures
            r@ == ItemView::blank(),
            r@.wf(),
    {
        let r = Item::Notes([None;9]);
        assert(r@->Notes_0 =~= empty_slots());
        r
    }

    /// Places a digit of the puzzle itself: whatever the cell held, it becomes
    /// the fixed number `value`. A `value` that is no digit is turned down and
    /// the cell stays as it was.
    pub fn set_fixed_number(&mut self, value: u8) -> (r: Result<(), SudokuError>)
        ensures
            is_digit(value as int) ==> r is Ok
                && final(self)@ == old(self)@.set_fixed_number(value as int),
            !is_digit(value as int) ==> r == Err::<(), SudokuError>(SudokuError::OutOfRange(value))
                && *final(self) == *old(self),
            old(self)@.wf() ==> final(self)@.wf(),
    {
        let value = Value::new(value)?;
        *self = Item::Number { value, fixed: true };
        Ok(())
    }

    /// Enters `new_value` as the cell's number, as the player does. A fixed
    /// number stays as it is unless `force_change` is set. Otherwise the
    /// number already there is cleared to a blank cell, another number is
    /// overwritten, and notes give way to the number, which is not fixed.
    /// Where a number would have to be written and `new_value` is no digit,
    /// it is turned down and the cell stays as it was.
    pub fn toggle_number(&mut self, new_value: u8, force_change: bool) -> (r: Result<(), SudokuError>)
        ensures
            old(self)@.resists(force_change) ==> r is Ok && *final(self) == *old(self),
            !old(self)@.resists(force_change) && is_digit(new_value as int) ==> r is Ok
                && final(self)@ == old(self)@.toggle_number(new_value as int, force_change),
            !old(self)@.resists(force_change) && !is_digit(new_value as int) ==> r == Err::<
                (),
                SudokuError,
            >(SudokuError::OutOfRange(new_value)) && *final(self) == *old(self),
            old(self)@.wf() ==> final(self)@.wf(),
    {
        match self {
            Item::Number { value, fixed } => {
                if force_change || !*fixed {
                    proof {
                        use_type_invariant(&*value);
                    }
                    if *value == new_value {
                        *self = Item::blank();
                    } else {
                        value.set(new_value)?;
                    }
                }
            },
            Item::Notes(..) => {
                *self = Item::Number { value: Value::new(new_value)?, fixed: false };
            },
        }
        Ok(())
    }

    /// Toggles the note for `value`, as the player does. A number gives way to
    /// notes that hold this one candidate. In notes, the slot of `value` is
    /// set if it was empty and emptied if it was set; the other slots stay.
    /// A `value` that is no digit is turned down and the cell stays as it was.
    pub fn toggle_note(&mut self, value: u8) -> (r: Result<(), SudokuError>)
        ensures
            is_digit(value as int) ==> r is Ok
                && final(self)@ == old(self)@.toggle_note(value as int),
            !is_digit(value as int) ==> r == Err::<(), SudokuError>(SudokuError::OutOfRange(value))
                && *final(self) == *old(self),
            old(self)@.wf() ==> final(self)@.wf(),
    {
        let note = Value::new(value)?;
        let index: usize = (value - 1) as usize;
        match self {
            Item::Number { .. } => {
                let mut slots: [Option<Value>; 9] = [None;9];
                slots[index] = Some(note);
                *self = Item::Notes(slots);
                assert(self@->Notes_0 =~= empty_slots().update(value - 1, Some(value as int)));
            },
            Item::Notes(slots) => {
                slots[index] = match slots[index] {
                    None => Some(note),
                    Some(_) => None,
                };
                assert(self@->Notes_0 =~= old(self)@->Notes_0.update(
                    value - 1,
                    if old(self)@->Notes_0[value - 1] is None {
                        Some(value as int)
                    } else {
                        None
                    },
                ));
            },
        }
        Ok(())
    }

    /// Whether the cell is well formed: each note that is set stands in the
    /// slot of its own digit. A cell built by hand can be tested with this;
    /// the operations of this type keep a well-formed cell well formed.
    pub fn is_well_formed(&self) -> (r: bool)
        ensures
            r == self@.wf(),
    {
        match self {
            Item::Number { value, .. } => {
                proof {
                    use_type_invariant(value);
                }
                true
            },
            Item::Notes(slots) => {
                for i in 0..9
                    invariant
                        *self == Item::Notes(*slots),
                        forall|j: int| 0 <= j < i ==> (#[trigger] self@->Notes_0[j] matches Some(d) ==> d == j + 1),
                {
                    if let Some(note) = slots[i] {
                        if note.get() != (i + 1) as u8 {
                            assert(self@->Notes_0[i as int] == Some(note@));
                            return false;
                        }
                    }
                }
                true
            },
        }
    }
}

impl PartialEq for Item {
    fn eq(&self, other: &Self) -> (r: bool) {
        match (self, other) {
            (Item::Number { value: lhs, .. }, Item::Number { value: rhs, .. }) => {
                proof {
                    if lhs@ == rhs@ {
                        Value::lemma_same_digit_same_value(*lhs, *rhs);
                    }
                }
                *lhs == *rhs
            },
            (Item::Notes(lhs), Item::Notes(rhs)) => {
                for i in 0..9
                    invariant
                        *self == Item::Notes(*lhs),
                        *other == Item::Notes(*rhs),
                        forall|j: int| 0 <= j < i ==> lhs[j] == rhs[j],
                {
                    let agree = match (lhs[i], rhs[i]) {
                        (None, None) => true,
                        (Some(a), Some(b)) => {
                            proof {
                                if a@ == b@ {
                                    Value::lemma_same_digit_same_value(a, b);
                                }
                            }
                            a == b
                        },
                        _ => false,
                    };
                    if !agree {
                        assert(self@->Notes_0[i as int] != other@->Notes_0[i as int]);
                        return false;
                    }
                }
                assert(self@->Notes_0 =~= other@->Notes_0);
                true
            },
            _ => false,
        }
    }
}

impl vstd::std_specs::cmp::PartialEqSpecImpl for Item {
    open spec fn obeys_eq_spec() -> bool {
        true
    }

    open spec fn eq_spec(&self, other: &Item) -> bool {
        self@.same_as(other@)
    }
}

/// A cell equals a raw digit exactly when it is a number with that digit;
/// notes equal no digit.
impl PartialEq<u8> for Item {
    fn eq(&self, other: &u8) -> (r: bool) {
        match self {
            Item::Number { value, .. } => *value == *other,
            Item::Notes(..) => false,
        }
    }
}

impl vstd::std_specs::cmp::PartialEqSpecImpl<u8> for Item {
    open spec fn obeys_eq_spec() -> bool {
        true
    }

    open spec fn eq_spec(&self, other: &u8) -> bool {
        self@.shows(*other as int)
    }
}

} // verus!
