use vstd::prelude::*;
use crate::storage::{listed, PinnedStorage};

verus! {

/// The number of items up to which a split vector with doubling growth
/// grows on every platform: the smaller of the two cumulative capacities
/// that `orx_split_vec` tabulates for 32-bit and 64-bit targets.
pub const SPLIT_LIMIT: usize = 2_147_483_644;

/// A pinned vector of `usize` items: `orx_split_vec::SplitVec` with its
/// default doubling growth. It keeps its items in fragments and grows by
/// adding a fragment, so that no stored item ever moves when one is
/// appended.
///
/// Opaque to the verifier: what it holds is named by [`split_items`], and
/// the functions below state what each call into `orx_split_vec` does to it.
#[verifier::external_body]
pub struct SplitStore {
    inner: orx_split_vec::SplitVec<usize>,
}

/// The items that a [`SplitStore`] holds, in order.
pub uninterp spec fn split_items(store: SplitStore) -> Seq<usize>;

/// `SplitVec::new`: a vector without items.
#[verifier::external_body]
fn split_new() -> (store: SplitStore)
    ensures
        split_items(store) == Seq::<usize>::empty(),
{
    SplitStore { inner: orx_split_vec::SplitVec::new() }
}

/// `PinnedVec::len` of `SplitVec`: the number of items.
#[verifier::external_body]
fn split_len(store: &SplitStore) -> (n: usize)
    ensures
        n == split_items(*store).len(),
{
    orx_pinned_vec::PinnedVec::len(&store.inner)
}

/// `PinnedVec::get` of `SplitVec`: the item at `index`, `None` from the
/// length on.
#[verifier::external_body]
fn split_get(store: &SplitStore, index: usize) -> (item: Option<&usize>)
    ensures
        index < split_items(*store).len() ==> item == Some(&split_items(*store)[index as int]),
        index >= split_items(*store).len() ==> item is None,
{
    orx_pinned_vec::PinnedVec::get(&store.inner, index)
}

/// `PinnedVec::get_mut` of `SplitVec`: the slot at `index`, `None` from the
/// length on. Writing to the slot changes that item and no other.
#[verifier::external_body]
fn split_get_mut(store: &mut SplitStore, index: usize) -> (slot: Option<&mut usize>)
    ensures
        match slot {
            Some(s) => {
                &&& index < split_items(*old(store)).len()
                &&& *s == split_items(*old(store))[index as int]
                &&& split_items(*final(store)) == split_items(*old(store)).update(
                    index as int,
                    *final(s),
                )
            },
            None => {
                &&& index >= split_items(*old(store)).len()
                &&& split_items(*final(store)) == split_items(*old(store))
            },
        },
{
    orx_pinned_vec::PinnedVec::get_mut(&mut store.inner, index)
}

/// `PinnedVec::push` of `SplitVec`: `value` becomes the last item.
#[verifier::external_body]
fn split_push(store: &mut SplitStore, value: usize)
    requires
        split_items(*old(store)).len() < SPLIT_LIMIT,
    ensures
        split_items(*final(store)) == split_items(*old(store)).push(value),
{
    orx_pinned_vec::PinnedVec::push(&mut store.inner, value)
}

/// `PinnedVec::extend_from_slice` of `SplitVec`: the items of `other` are
/// appended in order.
#[verifier::external_body]
fn split_extend_from_slice(store: &mut SplitStore, other: &[usize])
    requires
        split_items(*old(store)).len() + other@.len() <= SPLIT_LIMIT,
    ensures
        split_items(*final(store)) == split_items(*old(store)) + other@,
{
    orx_pinned_vec::PinnedVec::extend_from_slice(&mut store.inner, other)
}

/// `PinnedVec::insert` of `SplitVec`: `value` is placed at `index` and the
/// items from there on move up by one. The call panics past the length.
#[verifier::external_body]
fn split_insert(store: &mut SplitStore, index: usize, value: usize)
    requires
        index <= split_items(*old(store)).len(),
        split_items(*old(store)).len() < SPLIT_LIMIT,
    ensures
        split_items(*final(store)) == split_items(*old(store)).insert(index as int, value),
{
    orx_pinned_vec::PinnedVec::insert(&mut store.inner, index, value)
}

/// `PinnedVec::remove` of `SplitVec`: the item at `index` is taken out and
/// returned, and the items behind it move down by one. The call panics from
/// the length on.
#[verifier::external_body]
fn split_remove(store: &mut SplitStore, index: usize) -> (removed: usize)
    requires
        index < split_items(*old(store)).len(),
    ensures
        removed == split_items(*old(store))[index as int],
        split_items(*final(store)) == split_items(*old(store)).remove(index as int),
{
    orx_pinned_vec::PinnedVec::remove(&mut store.inner, index)
}

/// `PinnedVec::pop` of `SplitVec`: the last item is taken off and returned;
/// an empty vector gives `None` and stays as it is.
#[verifier::external_body]
fn split_pop(store: &mut SplitStore) -> (popped: Option<usize>)
    ensures
        split_items(*old(store)).len() == 0 ==> popped is None && split_items(*final(store))
            == split_items(*old(store)),
        split_items(*old(store)).len() > 0 ==> popped == Some(split_items(*old(store)).last())
            && split_items(*final(store)) == split_items(*old(store)).drop_last(),
{
    orx_pinned_vec::PinnedVec::pop(&mut store.inner)
}

/// `PinnedVec::clear` of `SplitVec`: no item is left.
#[verifier::external_body]
fn split_clear(store: &mut SplitStore)
    ensures
        split_items(*final(store)) == Seq::<usize>::empty(),
{
    orx_pinned_vec::PinnedVec::clear(&mut store.inner)
}

/// `PinnedVec::swap` of `SplitVec`: the items at `a` and `b` change places.
/// The call panics if either index is out of bounds.
#[verifier::external_body]
fn split_swap(store: &mut SplitStore, a: usize, b: usize)
    requires
        a < split_items(*old(store)).len(),
        b < split_items(*old(store)).len(),
    ensures
        split_items(*final(store)) == split_items(*old(store)).update(
            a as int,
            split_items(*old(store))[b as int],
        ).update(b as int, split_items(*old(store))[a as int]),
{
    orx_pinned_vec::PinnedVec::swap(&mut store.inner, a, b)
}

/// `SplitVec::to_vec`: the items, in order, in one vector.
#[verifier::external_body]
fn split_into_vec(store: SplitStore) -> (v: Vec<usize>)
    ensures
        v@ == split_items(store),
{
    store.inner.to_vec()
}

/// `Clone::clone` of `SplitVec`: a vector of its own with the same items.
#[verifier::external_body]
fn split_clone(store: &SplitStore) -> (copy: SplitStore)
    ensures
        split_items(copy) == split_items(*store),
{
    SplitStore { inner: store.inner.clone() }
}

impl Clone for SplitStore {
    fn clone(&self) -> (copy: Self)
        ensures
            split_items(copy) == split_items(*self),
    {
        split_clone(self)
    }
}

impl SplitStore {
    /// An empty store.
    pub fn new() -> (store: Self)
        ensures
            store.count() == 0,
            store.limit() == SPLIT_LIMIT,
    {
        split_new()
    }
}

impl PinnedStorage<usize> for SplitStore {
    open spec fn count(&self) -> usize {
        split_items(*self).len() as usize
    }

    open spec fn at(&self, index: usize) -> usize {
        split_items(*self)[index as int]
    }

    open spec fn limit(&self) -> usize {
        SPLIT_LIMIT
    }

    fn len(&self) -> (n: usize) {
        split_len(self)
    }

    fn get(&self, index: usize) -> (item: Option<&usize>) {
        let _ = split_len(self);
        split_get(self, index)
    }

    fn get_mut(&mut self, index: usize) -> (slot: Option<&mut usize>) {
        let _ = split_len(self);
        split_get_mut(self, index)
    }

    fn push(&mut self, value: usize) {
        let _ = split_len(self);
        split_push(self, value);
    }

    fn extend_from_slice(&mut self, other: &[usize]) {
        let _ = split_len(self);
        split_extend_from_slice(self, other);
        proof {
            let before = split_items(*old(self));
            let after = split_items(*self);
            assert(listed(self.count(), |i: usize| self.at(i)) =~= after);
            assert(listed(old(self).count(), |i: usize| old(self).at(i)) =~= before);
            assert(after.subrange(0, before.len() as int) =~= before);
        }
    }

    fn insert(&mut self, index: usize, value: usize) {
        let _ = split_len(self);
        split_insert(self, index, value);
    }

    fn remove(&mut self, index: usize) -> (removed: usize) {
        let _ = split_len(self);
        split_remove(self, index)
    }

    fn pop(&mut self) -> (popped: Option<usize>) {
        let _ = split_len(self);
        split_pop(self)
    }

    fn clear(&mut self) {
        split_clear(self);
    }

    fn swap(&mut self, a: usize, b: usize) {
        let _ = split_len(self);
        split_swap(self, a, b);
    }

    fn into_vec(self) -> (v: Vec<usize>) {
        let _ = split_len(&self);
        split_into_vec(self)
    }
}

} // verus!
