//! A slot whose value is checked out whole and handed back.
//!
//! Two cooperating halves of a run can share one value this way without ever
//! holding it at the same time: whoever works on it takes it out of the slot,
//! and puts it back before yielding. A checkout from an empty slot is refused
//! by contract, so a second simultaneous holder cannot arise.

use vstd::prelude::*;

verus! {

/// A slot that holds a value while nobody has it checked out.
pub struct BorrowCell<T> {
    slot: Option<T>,
}

impl<T> View for BorrowCell<T> {
    type V = Option<T>;

    /// The value in the slot, or `None` while it is checked out.
    closed spec fn view(&self) -> Option<T> {
        self.slot
    }
}

impl<T> BorrowCell<T> {
    /// A slot holding `value`.
    pub fn new(value: T) -> (c: BorrowCell<T>)
        ensures
            c@ == Some(value),
    {
        BorrowCell { slot: Some(value) }
    }

    /// Whether the value is in the slot, that is, not checked out.
    pub fn is_available(&self) -> (r: bool)
        ensures
            r == self@ is Some,
    {
        self.slot.is_some()
    }

    /// The value in the slot, to read without checking it out.
    pub fn get(&self) -> (r: &T)
        requires
            self@ is Some,
        ensures
            *r == self@->0,
    {
        self.slot.as_ref().unwrap()
    }

    /// Checks the value out; the slot stays empty until it is released.
    pub fn borrow(&mut self) -> (b: BorrowedCell<T>)
        requires
            old(self)@ is Some,
        ensures
            b@ == old(self)@->0,
            final(self)@ is None,
    {
        let value = self.slot.take().unwrap();
        BorrowedCell { value }
    }
}

/// A value checked out of a [`BorrowCell`].
pub struct BorrowedCell<T> {
    value: T,
}

impl<T> View for BorrowedCell<T> {
    type V = T;

    closed spec fn view(&self) -> T {
        self.value
    }
}

impl<T> BorrowedCell<T> {
    /// The checked-out value.
    pub fn get(&self) -> (r: &T)
        ensures
            *r == self@,
    {
        &self.value
    }

    /// The checked-out value, for change.
    pub fn get_mut(&mut self) -> (r: &mut T)
        ensures
            *r == old(self)@,
            final(self)@ == *final(r),
    {
        &mut self.value
    }

    /// Puts the value back into the empty slot it came from.
    pub fn release(self, cell: &mut BorrowCell<T>)
        requires
            old(cell)@ is None,
        ensures
            final(cell)@ == Some(self@),
    {
        cell.slot = Some(self.value);
    }
}

} // verus!
