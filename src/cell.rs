use vstd::prelude::*;

verus! {

/// Holds exactly one value of type `T`.
///
/// No reference into the stored value is ever handed out: `get` returns a copy
/// and `set` moves a new value in. Replacing the value takes the cell by `&mut`,
/// so the borrow checker, rather than a convention, guarantees that no other
/// thread reads or writes the cell while it changes.
pub struct Cell<T> {
    value: T,
}

impl<T> View for Cell<T> {
    type V = T;

    /// The value the cell currently holds.
    closed spec fn view(&self) -> T {
        self.value
    }
}

impl<T> Cell<T> {
    /// The cell that `new(value)` makes.
    pub closed spec fn spec_new(value: T) -> Cell<T> {
        Cell { value }
    }

    /// The cell that `set(value)` leaves behind when called on `self`.
    pub closed spec fn spec_set(self, value: T) -> Cell<T> {
        Cell { value }
    }

    /// The cell left behind by calling `set` on `self` with each of `writes`,
    /// first to last.
    pub open spec fn spec_set_all(self, writes: Seq<T>) -> Cell<T>
        decreases writes.len(),
    {
        if writes.len() == 0 {
            self
        } else {
            self.spec_set(writes[0]).spec_set_all(writes.drop_first())
        }
    }

    /// Makes a cell that owns `value`.
    pub fn new(value: T) -> (r: Cell<T>)
        ensures
            r == Cell::spec_new(value),
            r@ == value,
    {
        Cell { value }
    }

    /// Replaces the stored value with `value`; the old value is dropped.
    pub fn set(&mut self, value: T)
        ensures
            *final(self) == old(self).spec_set(value),
            final(self)@ == value,
    {
        self.value = value;
    }

    /// Returns a copy of the stored value. The cell is left as it was, so two
    /// reads with no `set` between them return the same value.
    pub fn get(&self) -> (r: T)
        where
            T: Copy,
        ensures
            r == self@,
    {
        self.value
    }

    /// A cell read right after it was made gives back the value it was made with.
    pub proof fn lemma_get_after_new(value: T)
        ensures
            Cell::spec_new(value)@ == value,
    {
    }

    /// Read after write: a cell made with `init` and then given each of `writes`
    /// by `set`, in order, holds the last of them, or `init` when there were none.
    pub proof fn lemma_get_after_sets(init: T, writes: Seq<T>)
        ensures
            Cell::spec_new(init).spec_set_all(writes)@ == if writes.len() == 0 {
                init
            } else {
                writes.last()
            },
        decreases writes.len(),
    {
        if writes.len() > 0 {
            let rest = writes.drop_first();
            Cell::<T>::lemma_get_after_sets(writes[0], rest);
        }
    }
}

} // verus!
