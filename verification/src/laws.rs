//! What holds of cells whatever they hold: that the operations keep them
//! well formed, how the toggles undo and override one another, and how
//! equality of cells behaves.

use crate::item::{empty_slots, Item, ItemView};
use crate::value::{is_digit, Value};
use vstd::prelude::*;

verus! {

/// A cell is known by its view: two cells with the same view are the same cell.
pub proof fn lemma_same_view_same_item(a: Item, b: Item)
    requires
        a@ == b@,
    ensures
        a == b,
{
    match (a, b) {
        (Item::Number { value: x, .. }, Item::Number { value: y, .. }) => {
            Value::lemma_same_digit_same_value(x, y);
        },
        (Item::Notes(x), Item::Notes(y)) => {
            assert forall|i: int| 0 <= i < 9 implies x[i] == y[i] by {
                assert(a@->Notes_0[i] == b@->Notes_0[i]);
                if let (Some(v), Some(w)) = (x[i], y[i]) {
                    Value::lemma_same_digit_same_value(v, w);
                }
            }
            assert(x =~= y);
        },
        _ => {},
    }
}

impl ItemView {
    /// The blank cell is well formed.
    pub proof fn lemma_blank_wf()
        ensures
            ItemView::blank().wf(),
    {
    }

    /// Placing a digit of the puzzle gives a well-formed cell, whatever the
    /// cell held.
    pub proof fn lemma_set_fixed_number_wf(self, raw: int)
        requires
            is_digit(raw),
        ensures
            self.set_fixed_number(raw).wf(),
    {
    }

    /// Entering a digit as a number keeps a well-formed cell well formed.
    pub proof fn lemma_toggle_number_wf(self, raw: int, force: bool)
        requires
            self.wf(),
            is_digit(raw),
        ensures
            self.toggle_number(raw, force).wf(),
    {
    }

    /// Toggling the note of a digit keeps a well-formed cell well formed.
    pub proof fn lemma_toggle_note_wf(self, raw: int)
        requires
            self.wf(),
            is_digit(raw),
        ensures
            self.toggle_note(raw).wf(),
    {
    }

    /// Toggling the note of a digit on the blank cell sets the slot of that
    /// digit and leaves every other slot empty; toggling it once more gives
    /// the blank cell back.
    pub proof fn lemma_toggle_note_twice_on_blank(raw: int)
        requires
            is_digit(raw),
        ensures
            ItemView::blank().toggle_note(raw) == ItemView::Notes(empty_slots().update(raw - 1, Some(raw))),
            ItemView::blank().toggle_note(raw).toggle_note(raw) == ItemView::blank(),
    {
        assert(empty_slots().update(raw - 1, Some(raw)).update(raw - 1, None) =~= empty_slots());
    }

    /// Toggling the note of the same digit twice on well-formed notes gives
    /// the same notes back.
    pub proof fn lemma_toggle_note_twice(self, raw: int)
        requires
            self is Notes,
            self.wf(),
            is_digit(raw),
        ensures
            self.toggle_note(raw).toggle_note(raw) == self,
    {
        assert(self.toggle_note(raw).toggle_note(raw)->Notes_0 =~= self->Notes_0);
    }

    /// Toggling the notes of two digits gives the same cell in either order.
    pub proof fn lemma_toggle_note_order(self, first: int, second: int)
        requires
            self is Notes ==> self->Notes_0.len() == 9,
            is_digit(first),
            is_digit(second),
        ensures
            self.toggle_note(first).toggle_note(second) == self.toggle_note(second).toggle_note(first),
            self.toggle_note(first).toggle_note(second).same_as(self.toggle_note(second).toggle_note(first)),
    {
        let one = self.toggle_note(first).toggle_note(second);
        let other = self.toggle_note(second).toggle_note(first);
        assert(one->Notes_0 =~= other->Notes_0);
    }

    /// Toggling the note of a digit on a number gives notes of nine slots in
    /// which the slot of that digit holds it and every other slot is empty.
    pub proof fn lemma_toggle_note_on_number(self, raw: int)
        requires
            self is Number,
            is_digit(raw),
        ensures
            self.toggle_note(raw) is Notes,
            self.toggle_note(raw)->Notes_0.len() == 9,
            self.toggle_note(raw)->Notes_0[raw - 1] == Some(raw),
            forall|i: int|
                0 <= i < 9 && i != raw - 1 ==> #[trigger] self.toggle_note(raw)->Notes_0[i] is None,
    {
    }

    /// Entering a number without force leaves a fixed number as it is,
    /// whatever is entered.
    pub proof fn lemma_fixed_number_resists(self, raw: int)
        requires
            self.is_fixed(),
        ensures
            self.toggle_number(raw, false) == self,
    {
    }

    /// Entering the number that a cell already holds, where the cell is not
    /// fixed or the change is forced, clears the cell to the blank cell.
    pub proof fn lemma_same_number_clears(self, force: bool)
        requires
            self is Number,
            !self.resists(force),
        ensures
            self.toggle_number(self->value, force) == ItemView::blank(),
    {
    }

    /// Entering another number than the one a cell holds, where the cell is
    /// not fixed or the change is forced, overwrites the digit and keeps the
    /// fixed flag.
    pub proof fn lemma_other_number_overwrites(self, raw: int, force: bool)
        requires
            self is Number,
            !self.resists(force),
            raw != self->value,
        ensures
            self.toggle_number(raw, force) is Number,
            self.toggle_number(raw, force)->value == raw,
            self.toggle_number(raw, force)->fixed == self->fixed,
    {
    }

    /// Entering a number over notes gives that number, not fixed, whatever
    /// the notes held.
    pub proof fn lemma_number_overrides_notes(self, raw: int, force: bool)
        requires
            self is Notes,
        ensures
            self.toggle_number(raw, force) is Number,
            self.toggle_number(raw, force)->value == raw,
            !self.toggle_number(raw, force)->fixed,
    {
    }

    /// Two numbers are equal exactly when their digits are, whether either
    /// is fixed or not.
    pub proof fn lemma_numbers_equal_by_digit(self, other: ItemView)
        requires
            self is Number,
            other is Number,
        ensures
            self.same_as(other) <==> self->value == other->value,
    {
    }

    /// Two sets of notes are equal exactly when they hold the same slots.
    pub proof fn lemma_notes_equal_by_slots(self, other: ItemView)
        requires
            self is Notes,
            other is Notes,
        ensures
            self.same_as(other) <==> self->Notes_0 == other->Notes_0,
    {
    }

    /// A number and notes are never equal, in either order.
    pub proof fn lemma_number_differs_from_notes(self, other: ItemView)
        requires
            self is Number,
            other is Notes,
        ensures
            !self.same_as(other),
            !other.same_as(self),
    {
    }

    /// A number equals a raw digit exactly when it holds that digit.
    pub proof fn lemma_number_shows_its_digit(self, raw: int)
        requires
            self is Number,
        ensures
            self.shows(raw) <==> self->value == raw,
    {
    }

    /// Notes equal no raw digit.
    pub proof fn lemma_notes_show_no_digit(self, raw: int)
        requires
            self is Notes,
        ensures
            !self.shows(raw),
    {
    }

    /// Equality of cells is reflexive, symmetric and transitive.
    pub proof fn lemma_same_as_is_equivalence(self, second: ItemView, third: ItemView)
        ensures
            self.same_as(self),
            self.same_as(second) ==> second.same_as(self),
            self.same_as(second) && second.same_as(third) ==> self.same_as(third),
    {
    }
}

} // verus!
