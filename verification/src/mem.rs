use vstd::prelude::*;
use crate::elem_ref::ElemRef;
use crate::imp_vec::ImpVec;
use crate::storage::PinnedStorage;

verus! {

/// `std::mem::replace`: `src` is stored in `dest` and what `dest` held
/// before is returned.
pub assume_specification<T>[ std::mem::replace::<T> ](dest: &mut T, src: T) -> (prev: T)
    ensures
        *final(dest) == src,
        prev == *old(dest),
;

impl<T, P: PinnedStorage<T>> ImpVec<T, P> {
    /// Puts `new_value` in the place of the element at `at` and returns that
    /// element. From the length on nothing happens and `None` is returned.
    pub fn replace_at(&mut self, at: usize, new_value: T) -> (prev: Option<T>)
        ensures
            final(self).same_slots_as(old(self)),
            forall|r: ElemRef| old(self).holds(r) <==> final(self).holds(r),
            at < old(self)@.len() ==> {
                &&& prev == Some(old(self)@[at as int])
                &&& final(self)@ == old(self)@.update(at as int, new_value)
            },
            at >= old(self)@.len() ==> {
                &&& prev is None
                &&& final(self)@ == old(self)@
            },
    {
        match self.get_mut(at) {
            Some(slot) => Some(std::mem::replace(slot, new_value)),
            None => None,
        }
    }

    /// Moves the element at `source_idx` to `destination_idx`, where it
    /// takes the place of the element that was there, and fills
    /// `source_idx` with `fill_source_with`. Returns the references to the
    /// two slots, source first. If either index is out of bounds nothing
    /// happens and `None` is returned.
    ///
    /// No element changes its position, so every reference stays good; only
    /// what the two slots hold changes.
    pub fn move_get_ref(
        &mut self,
        source_idx: usize,
        destination_idx: usize,
        fill_source_with: T,
    ) -> (refs: Option<(ElemRef, ElemRef)>)
        ensures
            final(self).same_slots_as(old(self)),
            forall|r: ElemRef| old(self).holds(r) <==> final(self).holds(r),
            source_idx < old(self)@.len() && destination_idx < old(self)@.len() ==> {
                &&& refs == Some(
                    (final(self).ref_to(source_idx), final(self).ref_to(destination_idx)),
                )
                &&& final(self)@ == old(self)@.update(
                    destination_idx as int,
                    old(self)@[source_idx as int],
                ).update(source_idx as int, fill_source_with)
            },
            source_idx >= old(self)@.len() || destination_idx >= old(self)@.len() ==> {
                &&& refs is None
                &&& final(self)@ == old(self)@
            },
    {
        match self.try_mem_swap(source_idx, destination_idx) {
            Some(_) => {
                let _ = self.replace_at(source_idx, fill_source_with);
                Some((self.make_ref(source_idx), self.make_ref(destination_idx)))
            },
            None => None,
        }
    }
}

} // verus!
