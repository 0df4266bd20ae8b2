use vstd::prelude::*;
use orx_fixed_vec::FixedVec;
use crate::storage::{listed, PinnedStorage};

verus! {

/// `orx_fixed_vec::FixedVec`: a pinned vector that allocates once and never
/// grows beyond the capacity it was made with. Opaque to the verifier.
#[verifier::external_type_specification]
#[verifier::external_body]
#[verifier::reject_recursive_types(T)]
pub struct ExFixedVec<T>(FixedVec<T>);

/// The items that a fixed vector of `usize` holds, in order.
pub uninterp spec fn fixed_items(store: FixedVec<usize>) -> Seq<usize>;

/// The capacity that a fixed vector of `usize` was made with.
pub uninterp spec fn fixed_limit(store: FixedVec<usize>) -> usize;

/// The largest capacity that a fixed vector of `usize` is made with here:
/// up to it the size of the allocation fits on every platform.
pub const FIXED_CAPACITY_MAX: usize = 268_435_455;

/// `FixedVec::new`: a vector without items, with room for `capacity` of
/// them. The call panics when the size of the allocation overflows.
#[verifier::external_body]
pub(crate) fn fixed_new(capacity: usize) -> (store: FixedVec<usize>)
    requires
        capacity <= FIXED_CAPACITY_MAX,
    ensures
        fixed_items(store) == Seq::<usize>::empty(),
        fixed_limit(store) == capacity,
{
    FixedVec::new(capacity)
}

/// `PinnedVec::len` of `FixedVec`: the number of items.
#[verifier::external_body]
fn fixed_len(store: &FixedVec<usize>) -> (n: usize)
    ensures
        n == fixed_items(*store).len(),
{
    orx_pinned_vec::PinnedVec::len(store)
}

/// `PinnedVec::get` of `FixedVec`: the item at `index`, `None` from the
/// length on.
#[verifier::external_body]
fn fixed_get(store: &FixedVec<usize>, index: usize) -> (item: Option<&usize>)
    ensures
        index < fixed_items(*store).len() ==> item == Some(&fixed_items(*store)[index as int]),
        index >= fixed_items(*store).len() ==> item is None,
{
    orx_pinned_vec::PinnedVec::get(store, index)
}

/// `PinnedVec::get_mut` of `FixedVec`: the slot at `index`, `None` from the
/// length on. Writing to the slot changes that item and no other.
#[verifier::external_body]
fn fixed_get_mut(store: &mut FixedVec<usize>, index: usize) -> (slot: Option<&mut usize>)
    ensures
        fixed_limit(*final(store)) == fixed_limit(*old(store)),
        match slot {
            Some(s) => {
                &&& index < fixed_items(*old(store)).len()
                &&& *s == fixed_items(*old(store))[index as int]
                &&& fixed_items(*final(store)) == fixed_items(*old(store)).update(
                    index as int,
                    *final(s),
                )
            },
            None => {
                &&& index >= fixed_items(*old(store)).len()
                &&& fixed_items(*final(store)) == fixed_items(*old(store))
            },
        },
{
    orx_pinned_vec::PinnedVec::get_mut(store, index)
}

/// `PinnedVec::push` of `FixedVec`: `value` becomes the last item. The call
/// panics when the vector is full.
#[verifier::external_body]
fn fixed_push(store: &mut FixedVec<usize>, value: usize)
    requires
        fixed_items(*old(store)).len() < fixed_limit(*old(store)),
    ensures
        fixed_limit(*final(store)) == fixed_limit(*old(store)),
        fixed_items(*final(store)) == fixed_items(*old(store)).push(value),
{
    orx_pinned_vec::PinnedVec::push(store, value)
}

/// `PinnedVec::extend_from_slice` of `FixedVec`: the items of `other` are
/// appended in order. The call panics when there is not room for all.
#[verifier::external_body]
fn fixed_extend_from_slice(store: &mut FixedVec<usize>, other: &[usize])
    requires
        fixed_items(*old(store)).len() + other@.len() <= fixed_limit(*old(store)),
    ensures
        fixed_limit(*final(store)) == fixed_limit(*old(store)),
        fixed_items(*final(store)) == fixed_items(*old(store)) + other@,
{
    orx_pinned_vec::PinnedVec::extend_from_slice(store, other)
}

/// `PinnedVec::insert` of `FixedVec`: `value` is placed at `index` and the
/// items from there on move up by one. The call panics past the length and
/// when the vector is full.
#[verifier::external_body]
fn fixed_insert(store: &mut FixedVec<usize>, index: usize, value: usize)
    requires
        index <= fixed_items(*old(store)).len(),
        fixed_items(*old(store)).len() < fixed_limit(*old(store)),
    ensures
        fixed_limit(*final(store)) == fixed_limit(*old(store)),
        fixed_items(*final(store)) == fixed_items(*old(store)).insert(index as int, value),
{
    orx_pinned_vec::PinnedVec::insert(store, index, value)
}

/// `PinnedVec::remove` of `FixedVec`: the item at `index` is taken out and
/// returned, and the items behind it move down by one. The call panics from
/// the length on.
#[verifier::external_body]
fn fixed_remove(store: &mut FixedVec<usize>, index: usize) -> (removed: usize)
    requires
        index < fixed_items(*old(store)).len(),
    ensures
        fixed_limit(*final(store)) == fixed_limit(*old(store)),
        removed == fixed_items(*old(store))[index as int],
        fixed_items(*final(store)) == fixed_items(*old(store)).remove(index as int),
{
    orx_pinned_vec::PinnedVec::remove(store, index)
}

/// `PinnedVec::pop` of `FixedVec`: the last item is taken off and returned;
/// an empty vector gives `None` and stays as it is.
#[verifier::external_body]
fn fixed_pop(store: &mut FixedVec<usize>) -> (popped: Option<usize>)
    ensures
        fixed_limit(*final(store)) == fixed_limit(*old(store)),
        fixed_items(*old(store)).len() == 0 ==> popped is None && fixed_items(*final(store))
            == fixed_items(*old(store)),
        fixed_items(*old(store)).len() > 0 ==> popped == Some(fixed_items(*old(store)).last())
            && fixed_items(*final(store)) == fixed_items(*old(store)).drop_last(),
{
    orx_pinned_vec::PinnedVec::pop(store)
}

/// `PinnedVec::clear` of `FixedVec`: no item is left; the capacity stays.
#[verifier::external_body]
fn fixed_clear(store: &mut FixedVec<usize>)
    ensures
        fixed_limit(*final(store)) == fixed_limit(*old(store)),
        fixed_items(*final(store)) == Seq::<usize>::empty(),
{
    orx_pinned_vec::PinnedVec::clear(store)
}

/// `PinnedVec::swap` of `FixedVec`: the items at `a` and `b` change places.
/// The call panics if either index is out of bounds.
#[verifier::external_body]
fn fixed_swap(store: &mut FixedVec<usize>, a: usize, b: usize)
    requires
        a < fixed_items(*old(store)).len(),
        b < fixed_items(*old(store)).len(),
    ensures
        fixed_limit(*final(store)) == fixed_limit(*old(store)),
        fixed_items(*final(store)) == fixed_items(*old(store)).update(
            a as int,
            fixed_items(*old(store))[b as int],
        ).update(b as int, fixed_items(*old(store))[a as int]),
{
    orx_pinned_vec::PinnedVec::swap(store, a, b)
}

/// `FixedVec::into_inner`: the items, in order, in the vector that held
/// them.
#[verifier::external_body]
fn fixed_into_vec(store: FixedVec<usize>) -> (v: Vec<usize>)
    ensures
        v@ == fixed_items(store),
{
    store.into_inner()
}

impl PinnedStorage<usize> for FixedVec<usize> {
    open spec fn count(&self) -> usize {
        fixed_items(*self).len() as usize
    }

    open spec fn at(&self, index: usize) -> usize {
        fixed_items(*self)[index as int]
    }

    open spec fn limit(&self) -> usize {
        fixed_limit(*self)
    }

    fn len(&self) -> (n: usize) {
        fixed_len(self)
    }

    fn get(&self, index: usize) -> (item: Option<&usize>) {
        let _ = fixed_len(self);
        fixed_get(self, index)
    }

    fn get_mut(&mut self, index: usize) -> (slot: Option<&mut usize>) {
        let _ = fixed_len(self);
        fixed_get_mut(self, index)
    }

    fn push(&mut self, value: usize) {
        let _ = fixed_len(self);
        fixed_push(self, value);
    }

    fn extend_from_slice(&mut self, other: &[usize]) {
        let _ = fixed_len(self);
        fixed_extend_from_slice(self, other);
        proof {
            let before = fixed_items(*old(self));
            let after = fixed_items(*self);
            assert(listed(self.count(), |i: usize| self.at(i)) =~= after);
            assert(listed(old(self).count(), |i: usize| old(self).at(i)) =~= before);
            assert(after.subrange(0, before.len() as int) =~= before);
        }
    }

    fn insert(&mut self, index: usize, value: usize) {
        let _ = fixed_len(self);
        fixed_insert(self, index, value);
    }

    fn remove(&mut self, index: usize) -> (removed: usize) {
        let _ = fixed_len(self);
        fixed_remove(self, index)
    }

    fn pop(&mut self) -> (popped: Option<usize>) {
        let _ = fixed_len(self);
        fixed_pop(self)
    }

    fn clear(&mut self) {
        fixed_clear(self);
    }

    fn swap(&mut self, a: usize, b: usize) {
        let _ = fixed_len(self);
        fixed_swap(self, a, b);
    }

    fn into_vec(self) -> (v: Vec<usize>) {
        let _ = fixed_len(&self);
        fixed_into_vec(self)
    }
}

} // verus!
