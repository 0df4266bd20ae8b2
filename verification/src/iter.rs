use vstd::prelude::*;
use crate::imp_vec::ImpVec;
use crate::storage::PinnedStorage;

verus! {

/// A walk over the elements of a vector, front to back.
///
/// The walk takes the length of the vector when it begins and gives out the
/// elements below that length. Under the borrow of the walk the vector
/// cannot change, so these are all of its elements.
pub struct ImpVecIter<'a, T, P: PinnedStorage<T>> {
    vec: &'a ImpVec<T, P>,
    i: usize,
    end: usize,
}

impl<'a, T, P: PinnedStorage<T>> ImpVecIter<'a, T, P> {
    #[verifier::type_invariant]
    spec fn ends_at_the_length(self) -> bool {
        self.end == self.vec@.len()
    }

    /// The elements that the walk goes over.
    pub closed spec fn source(&self) -> Seq<T> {
        self.vec@
    }

    /// The number of elements that the walk has given out.
    pub closed spec fn position(&self) -> usize {
        self.i
    }

    /// The elements that the walk still has to give out.
    pub open spec fn remaining(&self) -> Seq<T> {
        if self.position() <= self.source().len() {
            self.source().skip(self.position() as int)
        } else {
            Seq::empty()
        }
    }

    /// The next element, or `None` when all have been given out.
    pub fn next(&mut self) -> (item: Option<&'a T>)
        ensures
            final(self).source() == old(self).source(),
            old(self).remaining().len() > 0 ==> {
                &&& item == Some(&old(self).remaining()[0])
                &&& final(self).position() == old(self).position() + 1
                &&& final(self).remaining() == old(self).remaining().skip(1)
            },
            old(self).remaining().len() == 0 ==> {
                &&& item is None
                &&& final(self).position() == old(self).position()
            },
    {
        proof {
            use_type_invariant(&*self);
        }
        if self.i < self.end {
            let item = self.vec.get(self.i);
            self.i = self.i + 1;
            item
        } else {
            None
        }
    }
}

/// A walk over the elements of a vector, front to back, that lets the
/// caller change each of them in its place.
pub struct ImpVecIterMut<'a, T, P: PinnedStorage<T>> {
    pub vec: &'a mut ImpVec<T, P>,
    pub i: usize,
}

impl<'a, T, P: PinnedStorage<T>> ImpVecIterMut<'a, T, P> {
    /// The slot of the next element, or `None` when all have been given
    /// out. What the caller leaves in the slot is the element afterwards.
    pub fn next(&mut self) -> (slot: Option<&mut T>)
        ensures
            *final(final(self).vec) == *final(old(self).vec),
            final(self).vec.same_slots_as(old(self).vec),
            match slot {
                Some(s) => {
                    &&& old(self).i < old(self).vec@.len()
                    &&& *s == old(self).vec@[old(self).i as int]
                    &&& final(self).vec@ == old(self).vec@.update(old(self).i as int, *final(s))
                    &&& final(self).i == old(self).i + 1
                },
                None => {
                    &&& old(self).i >= old(self).vec@.len()
                    &&& final(self).vec@ == old(self).vec@
                    &&& final(self).i == old(self).i
                },
            },
    {
        let n = self.vec.len();
        if self.i < n {
            let at = self.i;
            self.i = self.i + 1;
            self.vec.get_mut(at)
        } else {
            None
        }
    }
}

impl<T, P: PinnedStorage<T>> ImpVec<T, P> {
    /// A walk over the elements, front to back.
    pub fn iter(&self) -> (walk: ImpVecIter<'_, T, P>)
        ensures
            walk.source() == self@,
            walk.position() == 0,
            walk.remaining() == self@,
    {
        ImpVecIter { vec: self, i: 0, end: self.len() }
    }

    /// A walk over the elements, front to back, that lets the caller change
    /// each of them in its place.
    pub fn iter_mut(&mut self) -> (walk: ImpVecIterMut<'_, T, P>)
        ensures
            *walk.vec == *old(self),
            *final(walk.vec) == *final(self),
            walk.i == 0,
    {
        ImpVecIterMut { vec: self, i: 0 }
    }
}

} // verus!
