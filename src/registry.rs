//! Single-assignment slots that hold the host's callbacks.

use vstd::prelude::*;

verus! {

/// Whether a slot in state `s` may take a value: only while it is empty.
/// Storing into a slot that holds a value is a host configuration defect.
pub open spec fn may_set<T>(s: Option<T>) -> bool {
    s is None
}

/// Whether a slot in state `s` may be read: only once it holds a value.
/// Reading an empty slot is a host configuration defect.
pub open spec fn may_read<T>(s: Option<T>) -> bool {
    s is Some
}

/// A slot that has taken a value may not take a second one and may be
/// read; a slot that never took one may be set but not read.
pub proof fn lemma_slot_initialized_once<T>(first: T)
    ensures
        !may_set(Some(first)),
        may_read(Some(first)),
        may_set(None::<T>),
        !may_read(None::<T>),
{
}

/// A single-assignment cell of the dispatch registry: it starts empty, takes
/// one value, and keeps that value from then on.
pub struct OnceSlot<T> {
    value: Option<T>,
}

impl<T> View for OnceSlot<T> {
    type V = Option<T>;

    closed spec fn view(&self) -> Option<T> {
        self.value
    }
}

impl<T> OnceSlot<T> {
    /// An empty slot.
    pub fn new() -> (r: Self)
        ensures
            r@ is None,
    {
        OnceSlot { value: None }
    }

    /// Whether a value has been stored.
    pub fn is_set(&self) -> (r: bool)
        ensures
            r == self@ is Some,
    {
        self.value.is_some()
    }

    /// Stores `value` in an empty slot.
    pub fn set(&mut self, value: T)
        requires
            may_set(old(self)@),
        ensures
            final(self)@ == Some(value),
    {
        self.value = Some(value);
    }

    /// Stores `value` whatever the slot held: the unsynchronized discipline,
    /// where the host alone keeps writers apart.
    pub fn replace(&mut self, value: T)
        ensures
            final(self)@ == Some(value),
    {
        self.value = Some(value);
    }

    /// The stored value.
    pub fn get(&self) -> (r: &T)
        requires
            may_read(self@),
        ensures
            self@ == Some(*r),
    {
        match &self.value {
            Some(v) => v,
            None => unreached(),
        }
    }
}

} // verus!
