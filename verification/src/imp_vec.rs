use vstd::prelude::*;
use std::marker::PhantomData;
use std::ops::Deref;
use crate::elem_ref::ElemRef;
use crate::storage::{extended_by_clones, items, PinnedStorage};

verus! {

/// A vector over a pinned storage that hands out references to its elements
/// which stay good while the vector grows.
///
/// Appending never disturbs what is stored: the elements keep their
/// positions and values, and every [`ElemRef`] given out before still
/// resolves to the same element. Structural edits (`insert`, `remove`, `pop`,
/// `clear`) start a new epoch, after which the references given out earlier
/// are refused.
pub struct ImpVec<T, P: PinnedStorage<T>> {
    store: P,
    anchor: Box<u8>,
    brand: usize,
    epoch: usize,
    marker: PhantomData<T>,
}

/// `std::ptr::from_ref` and `addr`: the address of the byte that a vector
/// owns for its whole life, as a number. No two live vectors share it; which
/// number it is depends on the allocator, so nothing is promised of it.
#[verifier::external_body]
fn anchor_address(anchor: &Box<u8>) -> usize {
    std::ptr::from_ref::<u8>(anchor).addr()
}

/// No specification function gives the result of `from`: the vector's brand
/// is chosen when it is made. What holds of the result is stated on `from`
/// itself.
impl<T, P: PinnedStorage<T>> vstd::std_specs::convert::FromSpecImpl<P> for ImpVec<T, P> {
    open spec fn obeys_from_spec() -> bool {
        false
    }

    open spec fn from_spec(pinned_vec: P) -> Self {
        arbitrary()
    }
}

impl<T, P: PinnedStorage<T>> From<P> for ImpVec<T, P> {
    /// Wraps a pinned storage; the elements are those that it holds. The
    /// vector is a new one: it honours no reference given out before.
    fn from(pinned_vec: P) -> (vec: Self)
        ensures
            vec.storage() == pinned_vec,
            vec@ == items(&pinned_vec),
            vec.limit() == pinned_vec.limit(),
            vec.epoch() == 0,
    {
        let anchor = Box::new(0u8);
        let brand = anchor_address(&anchor);
        ImpVec { store: pinned_vec, anchor, brand, epoch: 0, marker: PhantomData }
    }
}

impl<T, P: PinnedStorage<T>> Deref for ImpVec<T, P> {
    type Target = P;

    /// The storage, to look at.
    fn deref(&self) -> (store: &P)
        ensures
            *store == self.storage(),
    {
        &self.store
    }
}

impl<T, P: PinnedStorage<T> + Clone> Clone for ImpVec<T, P> {
    /// A vector of its own over a clone of the storage. It is another
    /// vector: it honours none of the references that `self` gave out.
    fn clone(&self) -> (copy: Self)
        ensures
            cloned(self.storage(), copy.storage()),
    {
        ImpVec::from(self.store.clone())
    }
}

impl<T, P: PinnedStorage<T>> View for ImpVec<T, P> {
    type V = Seq<T>;

    /// The elements, in order.
    open spec fn view(&self) -> Seq<T> {
        items(&self.storage())
    }
}

impl<T, P: PinnedStorage<T>> ImpVec<T, P> {
    /// The storage that the vector wraps.
    pub closed spec fn storage(&self) -> P {
        self.store
    }

    /// The number that tells this vector from every other live one.
    pub closed spec fn brand(&self) -> usize {
        self.brand
    }

    /// The number of the current layout: it changes with every structural
    /// edit and with nothing else.
    pub closed spec fn epoch(&self) -> usize {
        self.epoch
    }

    /// The largest number of elements that the storage accepts.
    pub open spec fn limit(&self) -> usize {
        self.storage().limit()
    }

    /// `r` was given out by this vector in its current epoch and points at
    /// one of its elements.
    pub open spec fn holds(&self, r: ElemRef) -> bool {
        &&& r.brand == self.brand()
        &&& r.epoch == self.epoch()
        &&& r.index < self@.len()
    }

    /// The reference to the element at `index` in the current epoch.
    pub open spec fn ref_to(&self, index: usize) -> ElemRef {
        ElemRef { brand: self.brand(), epoch: self.epoch(), index }
    }

    /// `self` came from `before` by appending only: same identity, same
    /// epoch, same limit, and the elements of `before` in front.
    pub open spec fn grew_from(&self, before: &Self) -> bool {
        &&& self.brand() == before.brand()
        &&& self.epoch() == before.epoch()
        &&& self.limit() == before.limit()
        &&& before@.len() <= self@.len()
        &&& self@.subrange(0, before@.len() as int) == before@
    }

    /// `self` came from `before` by writing to slots: same identity, epoch,
    /// limit and length.
    pub open spec fn same_slots_as(&self, before: &Self) -> bool {
        &&& self.brand() == before.brand()
        &&& self.epoch() == before.epoch()
        &&& self.limit() == before.limit()
        &&& self@.len() == before@.len()
    }

    /// `self` came from `before` by a structural edit: same identity and
    /// limit, the following epoch.
    pub open spec fn edited_from(&self, before: &Self) -> bool {
        &&& self.brand() == before.brand()
        &&& self.epoch() == following_epoch(before.epoch())
        &&& self.epoch() != before.epoch()
        &&& self.limit() == before.limit()
    }

    /// Gives the storage back, with the elements in it.
    pub fn into_inner(self) -> (store: P)
        ensures
            store == self.storage(),
            items(&store) == self@,
    {
        self.store
    }

    /// The number of elements.
    pub fn len(&self) -> (n: usize)
        ensures
            n == self@.len(),
    {
        self.store.len()
    }

    /// Whether there is no element.
    pub fn is_empty(&self) -> (empty: bool)
        ensures
            empty <==> self@.len() == 0,
    {
        self.store.len() == 0
    }

    /// The element at `index`, or `None` from the length on.
    pub fn get(&self, index: usize) -> (item: Option<&T>)
        ensures
            index < self@.len() ==> item == Some(&self@[index as int]),
            index >= self@.len() ==> item is None,
    {
        self.store.get(index)
    }

    /// Appends `value`. Every element stays where and what it was, and every
    /// reference that held before holds after.
    pub fn push(&mut self, value: T)
        requires
            old(self)@.len() < old(self).limit(),
        ensures
            final(self)@ == old(self)@.push(value),
            final(self)@.len() == old(self)@.len() + 1,
            forall|i: int| 0 <= i < old(self)@.len() ==> final(self)@[i] == old(self)@[i],
            forall|r: ElemRef| old(self).holds(r) ==> final(self).holds(r),
            final(self).grew_from(old(self)),
    {
        self.store.push(value);
        proof {
            assert(self@.subrange(0, old(self)@.len() as int) =~= old(self)@);
        }
    }

    /// Appends `value` and returns the reference to it.
    pub fn push_get_ref(&mut self, value: T) -> (r: ElemRef)
        requires
            old(self)@.len() < old(self).limit(),
        ensures
            final(self)@ == old(self)@.push(value),
            final(self)@.len() == old(self)@.len() + 1,
            forall|i: int| 0 <= i < old(self)@.len() ==> final(self)@[i] == old(self)@[i],
            forall|q: ElemRef| old(self).holds(q) ==> final(self).holds(q),
            final(self).grew_from(old(self)),
            r == final(self).ref_to(old(self)@.len() as usize),
            final(self).holds(r),
            !old(self).holds(r),
    {
        let index = self.store.len();
        self.store.push(value);
        proof {
            assert(self@.subrange(0, old(self)@.len() as int) =~= old(self)@);
        }
        ElemRef { brand: self.brand, epoch: self.epoch, index }
    }

    /// Appends a clone of each item of `other`, in order, in one call to the
    /// storage.
    pub fn extend_from_slice(&mut self, other: &[T]) where T: Clone
        requires
            old(self)@.len() + other@.len() <= old(self).limit(),
        ensures
            extended_by_clones(old(self)@, other@, final(self)@),
            final(self)@.len() == old(self)@.len() + other@.len(),
            forall|i: int| 0 <= i < old(self)@.len() ==> final(self)@[i] == old(self)@[i],
            forall|r: ElemRef| old(self).holds(r) ==> final(self).holds(r),
            final(self).grew_from(old(self)),
    {
        self.store.extend_from_slice(other);
        proof {
            let before = old(self)@;
            let after = self@;
            assert forall|i: int| 0 <= i < before.len() implies after[i] == before[i] by {
                assert(after.subrange(0, before.len() as int)[i] == after[i]);
            }
        }
    }

    /// Appends a clone of each item of `other`, in order, one push at a time.
    pub fn extend(&mut self, other: &[T]) where T: Clone
        requires
            old(self)@.len() + other@.len() <= old(self).limit(),
        ensures
            extended_by_clones(old(self)@, other@, final(self)@),
            final(self)@.len() == old(self)@.len() + other@.len(),
            forall|i: int| 0 <= i < old(self)@.len() ==> final(self)@[i] == old(self)@[i],
            forall|r: ElemRef| old(self).holds(r) ==> final(self).holds(r),
            final(self).grew_from(old(self)),
    {
        let ghost before = self@;
        let mut done: usize = 0;
        proof {
            assert(self@.subrange(0, before.len() as int) =~= before);
        }
        while done < other.len()
            invariant
                done <= other@.len(),
                before == old(self)@,
                before.len() + other@.len() <= self.limit(),
                self@.len() == before.len() + done,
                self.grew_from(old(self)),
                forall|j: int| 0 <= j < done ==> cloned(other@[j], #[trigger] self@[before.len() + j]),
            decreases other@.len() - done,
        {
            let ghost prior = self@;
            let item = other[done].clone();
            self.store.push(item);
            proof {
                assert(self@.subrange(0, before.len() as int) =~= prior.subrange(
                    0,
                    before.len() as int,
                ));
                assert forall|j: int| 0 <= j < done + 1 implies cloned(
                    other@[j],
                    #[trigger] self@[before.len() + j],
                ) by {
                    if j < done {
                        assert(self@[before.len() + j] == prior[before.len() + j]);
                    }
                }
            }
            done = done + 1;
        }
    }

    /// Puts `value` at `index` and moves the elements from there on up by
    /// one. A structural edit: the references given out before are refused
    /// afterwards.
    pub fn insert(&mut self, index: usize, value: T)
        requires
            index <= old(self)@.len(),
            old(self)@.len() < old(self).limit(),
        ensures
            final(self)@ == old(self)@.insert(index as int, value),
            final(self).edited_from(old(self)),
            forall|r: ElemRef| old(self).holds(r) ==> !final(self).holds(r),
    {
        self.store.insert(index, value);
        self.epoch = next_epoch(self.epoch);
    }

    /// Takes the element at `index` out and moves the elements behind it
    /// down by one. A structural edit.
    pub fn remove(&mut self, index: usize) -> (removed: T)
        requires
            index < old(self)@.len(),
        ensures
            removed == old(self)@[index as int],
            final(self)@ == old(self)@.remove(index as int),
            final(self).edited_from(old(self)),
            forall|r: ElemRef| old(self).holds(r) ==> !final(self).holds(r),
    {
        let removed = self.store.remove(index);
        self.epoch = next_epoch(self.epoch);
        removed
    }

    /// Takes the last element off. On an empty vector nothing happens and
    /// `None` is returned; otherwise this is a structural edit.
    pub fn pop(&mut self) -> (popped: Option<T>)
        ensures
            old(self)@.len() == 0 ==> {
                &&& popped is None
                &&& final(self)@ == old(self)@
                &&& final(self).grew_from(old(self))
            },
            old(self)@.len() > 0 ==> {
                &&& popped == Some(old(self)@.last())
                &&& final(self)@ == old(self)@.drop_last()
                &&& final(self).edited_from(old(self))
            },
            forall|r: ElemRef| old(self).holds(r) ==> !final(self).holds(r),
    {
        let popped = self.store.pop();
        if popped.is_some() {
            self.epoch = next_epoch(self.epoch);
        } else {
            proof {
                assert(self@.subrange(0, old(self)@.len() as int) =~= old(self)@);
            }
        }
        popped
    }

    /// Drops every element. A structural edit.
    pub fn clear(&mut self)
        ensures
            final(self)@ == Seq::<T>::empty(),
            final(self).edited_from(old(self)),
            forall|r: ElemRef| !final(self).holds(r),
    {
        self.store.clear();
        self.epoch = next_epoch(self.epoch);
    }

    /// Moves the elements out into one contiguous vector, in order.
    pub fn to_vec(self) -> (v: Vec<T>)
        ensures
            v@ == self@,
    {
        self.store.into_vec()
    }

    /// Exclusive access to the element at `index`, or `None` from the length
    /// on. What the caller leaves in the slot is the element afterwards;
    /// the other elements, and every reference, stay as they are.
    pub fn get_mut(&mut self, index: usize) -> (slot: Option<&mut T>)
        ensures
            final(self).same_slots_as(old(self)),
            forall|r: ElemRef| old(self).holds(r) <==> final(self).holds(r),
            match slot {
                Some(s) => {
                    &&& index < old(self)@.len()
                    &&& *s == old(self)@[index as int]
                    &&& final(self)@ == old(self)@.update(index as int, *final(s))
                },
                None => {
                    &&& index >= old(self)@.len()
                    &&& final(self)@ == old(self)@
                },
            },
    {
        self.store.get_mut(index)
    }

    /// Exchanges the elements at `first_idx` and `second_idx`. If either is
    /// out of bounds nothing happens and `None` is returned.
    pub fn try_mem_swap(&mut self, first_idx: usize, second_idx: usize) -> (done: Option<()>)
        ensures
            final(self).same_slots_as(old(self)),
            forall|r: ElemRef| old(self).holds(r) <==> final(self).holds(r),
            first_idx < old(self)@.len() && second_idx < old(self)@.len() ==> {
                &&& done is Some
                &&& final(self)@ == old(self)@.update(
                    first_idx as int,
                    old(self)@[second_idx as int],
                ).update(second_idx as int, old(self)@[first_idx as int])
            },
            first_idx >= old(self)@.len() || second_idx >= old(self)@.len() ==> {
                &&& done is None
                &&& final(self)@ == old(self)@
            },
    {
        let n = self.store.len();
        if first_idx < n && second_idx < n {
            self.store.swap(first_idx, second_idx);
            Some(())
        } else {
            None
        }
    }

    /// The reference to the element at `index`, whether or not there is one.
    pub(crate) fn make_ref(&self, index: usize) -> (r: ElemRef)
        ensures
            r == self.ref_to(index),
    {
        ElemRef { brand: self.brand, epoch: self.epoch, index }
    }

    /// The reference to the element at `index`, or `None` from the length
    /// on.
    pub fn ref_at(&self, index: usize) -> (r: Option<ElemRef>)
        ensures
            index < self@.len() ==> r == Some(self.ref_to(index)) && self.holds(r->0),
            index >= self@.len() ==> r is None,
    {
        if index < self.store.len() {
            Some(self.make_ref(index))
        } else {
            None
        }
    }

    /// The position that `r` points at, if this vector honours `r`.
    pub fn index_of(&self, r: ElemRef) -> (index: Option<usize>)
        ensures
            self.holds(r) ==> index == Some(r.index),
            !self.holds(r) ==> index is None,
    {
        if r.brand == self.brand && r.epoch == self.epoch && r.index < self.store.len() {
            Some(r.index)
        } else {
            None
        }
    }

    /// The element that `r` points at, if this vector honours `r`.
    pub fn get_ref(&self, r: ElemRef) -> (item: Option<&T>)
        ensures
            self.holds(r) ==> item == Some(&self@[r.index as int]),
            !self.holds(r) ==> item is None,
    {
        if r.brand == self.brand && r.epoch == self.epoch {
            self.store.get(r.index)
        } else {
            None
        }
    }
}

/// The epoch after `epoch`: the next number, starting over after the last.
pub open spec fn following_epoch(epoch: usize) -> usize {
    if epoch == usize::MAX {
        0
    } else {
        (epoch + 1) as usize
    }
}

/// The epoch after `epoch`.
fn next_epoch(epoch: usize) -> (next: usize)
    ensures
        next == following_epoch(epoch),
        next != epoch,
{
    if epoch == usize::MAX {
        0
    } else {
        epoch + 1
    }
}

} // verus!
