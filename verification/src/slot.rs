//! Fixed-capacity slot storage with O(1) swap-remove.
//!
//! Modules, cables and other per-patch resources live in a `ComponentVec`,
//! a vector bounded by a compile-time capacity `MAX`. `push` refuses to grow
//! past the capacity, and `remove` takes an element out in O(1) by moving the
//! last live element into the removed slot, so element indices are stable only
//! until the next removal.

use vstd::prelude::*;

verus! {

/// Why a slot operation was refused.
#[derive(Clone, Copy, PartialEq, Eq, Structural, Debug)]
pub enum SlotError {
    /// `push` on a full collection.
    CapacityExceeded,
    /// `remove` or `put` with an index at or past the live count.
    IndexOutOfRange,
}

/// A vector bounded by the compile-time capacity `MAX`.
pub struct ComponentVec<T, const MAX: usize> {
    components: Vec<T>,
}

impl<T, const MAX: usize> View for ComponentVec<T, MAX> {
    type V = Seq<T>;

    closed spec fn view(&self) -> Seq<T> {
        self.components@
    }
}

impl<T, const MAX: usize> ComponentVec<T, MAX> {
    /// The live count never exceeds the capacity.
    pub open spec fn wf(&self) -> bool {
        self@.len() <= MAX
    }

    /// An empty collection.
    pub fn new() -> (r: Self)
        ensures
            r@ == Seq::<T>::empty(),
            r.wf(),
    {
        ComponentVec { components: Vec::new() }
    }

    /// Number of live elements.
    pub fn len(&self) -> (r: usize)
        ensures
            r == self@.len(),
    {
        self.components.len()
    }

    /// Read the element in slot `index`.
    pub fn get(&self, index: usize) -> (r: &T)
        requires
            index < self@.len(),
        ensures
            *r == self@[index as int],
    {
        &self.components[index]
    }

    /// Replace the element in slot `index`; refused past the live count.
    pub fn put(&mut self, index: usize, value: T) -> (r: Result<(), SlotError>)
        requires
            old(self).wf(),
        ensures
            final(self).wf(),
            index < old(self)@.len() ==> r == Ok::<(), SlotError>(()) && final(self)@ == old(
                self,
            )@.update(index as int, value),
            index >= old(self)@.len() ==> r == Err::<(), SlotError>(SlotError::IndexOutOfRange)
                && final(self)@ == old(self)@,
    {
        if index < self.components.len() {
            self.components[index] = value;
            Ok(())
        } else {
            Err(SlotError::IndexOutOfRange)
        }
    }

    /// Append a new element; refused once `MAX` elements are live.
    pub fn push(&mut self, new_component: T) -> (r: Result<(), SlotError>)
        requires
            old(self).wf(),
        ensures
            final(self).wf(),
            old(self)@.len() < MAX ==> r == Ok::<(), SlotError>(()) && final(self)@ == old(
                self,
            )@.push(new_component),
            old(self)@.len() >= MAX ==> r == Err::<(), SlotError>(SlotError::CapacityExceeded)
                && final(self)@ == old(self)@,
    {
        if self.components.len() < MAX {
            self.components.push(new_component);
            Ok(())
        } else {
            Err(SlotError::CapacityExceeded)
        }
    }

    /// Take the element in slot `index` out in O(1) by moving the last live
    /// element into its place; refused past the live count.
    pub fn remove(&mut self, index: usize) -> (r: Result<T, SlotError>)
        requires
            old(self).wf(),
        ensures
            final(self).wf(),
            index < old(self)@.len() ==> r == Ok::<T, SlotError>(old(self)@[index as int])
                && final(self)@ == old(self)@.update(index as int, old(self)@.last()).drop_last(),
            index >= old(self)@.len() ==> r == Err::<T, SlotError>(SlotError::IndexOutOfRange)
                && final(self)@ == old(self)@,
    {
        if index < self.components.len() {
            Ok(self.components.swap_remove(index))
        } else {
            Err(SlotError::IndexOutOfRange)
        }
    }

    /// The live elements, in current (possibly reordered) order.
    pub fn iter(&self) -> (r: &Vec<T>)
        ensures
            r@ == self@,
    {
        &self.components
    }
}

} // verus!
