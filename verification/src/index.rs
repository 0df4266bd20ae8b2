use vstd::prelude::*;
use std::ops::{Index, IndexMut};
use crate::imp_vec::ImpVec;
use crate::storage::PinnedStorage;

verus! {

impl<T, P: PinnedStorage<T>> vstd::std_specs::core::IndexSpecImpl<usize> for ImpVec<T, P> {
    /// Indexing is for positions below the length.
    open spec fn index_req(&self, index: &usize) -> bool {
        *index < self@.len()
    }
}

impl<T, P: PinnedStorage<T>> Index<usize> for ImpVec<T, P> {
    type Output = T;

    /// The element at `index`.
    fn index(&self, index: usize) -> (item: &T)
        ensures
            *item == self@[index as int],
    {
        match self.get(index) {
            Some(item) => item,
            None => unreached(),
        }
    }
}

impl<T, P: PinnedStorage<T>> IndexMut<usize> for ImpVec<T, P> {
    /// The slot of the element at `index`.
    fn index_mut(&mut self, index: usize) -> (slot: &mut T)
        requires
            index < old(self)@.len(),
        ensures
            *slot == old(self)@[index as int],
            final(self)@ == old(self)@.update(index as int, *final(slot)),
            final(self).same_slots_as(old(self)),
    {
        match self.get_mut(index) {
            Some(slot) => slot,
            None => unreached(),
        }
    }
}

} // verus!
