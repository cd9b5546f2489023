use vstd::prelude::*;

verus! {

/// A storage location whose value can be moved out and later moved back in.
///
/// Outside of a scope a slot always holds a value. A slot is empty only while
/// a [`crate::Hole`] borrows it, that is between a scope's `take` and the
/// matching `fill` or `recover`.
#[derive(Debug)]
pub struct Slot<T> {
    value: Option<T>,
}

impl<T> View for Slot<T> {
    type V = Option<T>;

    /// `Some(v)` when the slot holds `v`, `None` while it has been emptied.
    closed spec fn view(&self) -> Option<T> {
        self.value
    }
}

impl<T> Slot<T> {
    /// A slot holding `v`.
    pub fn new(v: T) -> (r: Self)
        ensures
            r@ == Some(v),
    {
        Slot { value: Some(v) }
    }

    /// Whether the slot holds a value.
    pub fn is_filled(&self) -> (r: bool)
        ensures
            r == self@ is Some,
    {
        self.value.is_some()
    }

    /// The value the slot holds.
    pub fn get(&self) -> (r: &T)
        requires
            self@ is Some,
        ensures
            Some(*r) == self@,
    {
        self.value.as_ref().unwrap()
    }

    /// Consumes the slot and hands back its value.
    pub fn into_inner(self) -> (r: T)
        requires
            self@ is Some,
        ensures
            Some(r) == self@,
    {
        self.value.unwrap()
    }

    /// Moves the value out, leaving the slot empty.
    pub(crate) fn move_out(&mut self) -> (r: T)
        requires
            old(self)@ is Some,
        ensures
            Some(r) == old(self)@,
            final(self)@ is None,
    {
        self.value.take().unwrap()
    }

    /// Moves `v` in; whatever the slot held before is dropped.
    pub(crate) fn move_in(&mut self, v: T)
        ensures
            final(self)@ == Some(v),
    {
        self.value = Some(v);
    }
}

} // verus!
