use vstd::prelude::*;

verus! {

/// The sequence that a count and an indexing function describe.
pub open spec fn listed<T>(count: usize, at: spec_fn(usize) -> T) -> Seq<T> {
    Seq::new(count as nat, |i: int| at(i as usize))
}

/// `after` is `before` followed by one clone of each item of `added`.
pub open spec fn extended_by_clones<T: Clone>(before: Seq<T>, added: Seq<T>, after: Seq<T>) -> bool {
    &&& after.len() == before.len() + added.len()
    &&& after.subrange(0, before.len() as int) == before
    &&& forall|j: int| 0 <= j < added.len() ==> cloned(added[j], #[trigger] after[before.len() + j])
}

/// What a growable sequence must offer to back an [`crate::ImpVec`].
///
/// An implementor promises more than the contracts below can say: appending
/// (`push`, `extend_from_slice`) must never move an item that is already
/// stored. That is what makes the storage *pinned*, and what lets a caller
/// outside verified code keep the address of an item while the sequence
/// grows. Structural edits (`insert`, `remove`, `pop`, `clear`) may move or
/// drop items.
///
/// The abstract state is given by three specification functions over plain
/// types, so that a storage written in ordinary Rust can implement the
/// trait; they are never called at run time. [`items`] turns them into a
/// sequence.
pub trait PinnedStorage<T>: Sized {
    /// The number of stored items.
    spec fn count(&self) -> usize;

    /// The item at `index`; meaningful for `index < self.count()`.
    spec fn at(&self, index: usize) -> T;

    /// The largest number of items that the storage accepts.
    spec fn limit(&self) -> usize;

    /// The number of stored items.
    fn len(&self) -> (n: usize)
        ensures
            n == self.count(),
    ;

    /// The item at `index`, or `None` from the length on.
    fn get(&self, index: usize) -> (item: Option<&T>)
        ensures
            index < self.count() ==> item == Some(&self.at(index)),
            index >= self.count() ==> item is None,
    ;

    /// Exclusive access to the slot at `index`: whatever the caller leaves
    /// in it is the item at `index` afterwards, and nothing else changes.
    fn get_mut(&mut self, index: usize) -> (slot: Option<&mut T>)
        ensures
            final(self).limit() == old(self).limit(),
            match slot {
                Some(s) => {
                    &&& index < old(self).count()
                    &&& *s == old(self).at(index)
                    &&& listed(final(self).count(), |i: usize| final(self).at(i)) == listed(
                        old(self).count(),
                        |i: usize| old(self).at(i),
                    ).update(index as int, *final(s))
                },
                None => {
                    &&& index >= old(self).count()
                    &&& listed(final(self).count(), |i: usize| final(self).at(i)) == listed(
                        old(self).count(),
                        |i: usize| old(self).at(i),
                    )
                },
            },
    ;

    /// Appends `value`. The storage must have room for it.
    fn push(&mut self, value: T)
        requires
            old(self).count() < old(self).limit(),
        ensures
            final(self).limit() == old(self).limit(),
            listed(final(self).count(), |i: usize| final(self).at(i)) == listed(
                old(self).count(),
                |i: usize| old(self).at(i),
            ).push(value),
    ;

    /// Appends a clone of each item of `other`, in order. The storage must
    /// have room for all of them.
    fn extend_from_slice(&mut self, other: &[T]) where T: Clone
        requires
            old(self).count() + other@.len() <= old(self).limit(),
        ensures
            final(self).limit() == old(self).limit(),
            extended_by_clones(
                listed(old(self).count(), |i: usize| old(self).at(i)),
                other@,
                listed(final(self).count(), |i: usize| final(self).at(i)),
            ),
    ;

    /// Puts `value` at `index` and moves the items from there on up by one.
    fn insert(&mut self, index: usize, value: T)
        requires
            index <= old(self).count(),
            old(self).count() < old(self).limit(),
        ensures
            final(self).limit() == old(self).limit(),
            listed(final(self).count(), |i: usize| final(self).at(i)) == listed(
                old(self).count(),
                |i: usize| old(self).at(i),
            ).insert(index as int, value),
    ;

    /// Takes the item at `index` out and moves the items behind it down by
    /// one.
    fn remove(&mut self, index: usize) -> (removed: T)
        requires
            index < old(self).count(),
        ensures
            final(self).limit() == old(self).limit(),
            removed == old(self).at(index),
            listed(final(self).count(), |i: usize| final(self).at(i)) == listed(
                old(self).count(),
                |i: usize| old(self).at(i),
            ).remove(index as int),
    ;

    /// Takes the last item off, if there is one.
    fn pop(&mut self) -> (popped: Option<T>)
        ensures
            final(self).limit() == old(self).limit(),
            old(self).count() == 0 ==> popped is None && final(self).count() == 0,
            old(self).count() > 0 ==> popped == Some(old(self).at((old(self).count() - 1) as usize))
                && listed(final(self).count(), |i: usize| final(self).at(i)) == listed(
                old(self).count(),
                |i: usize| old(self).at(i),
            ).drop_last(),
    ;

    /// Drops every item; the limit stays.
    fn clear(&mut self)
        ensures
            final(self).limit() == old(self).limit(),
            final(self).count() == 0,
    ;

    /// Exchanges the items at `a` and `b`.
    fn swap(&mut self, a: usize, b: usize)
        requires
            a < old(self).count(),
            b < old(self).count(),
        ensures
            final(self).limit() == old(self).limit(),
            listed(final(self).count(), |i: usize| final(self).at(i)) == listed(
                old(self).count(),
                |i: usize| old(self).at(i),
            ).update(a as int, old(self).at(b)).update(b as int, old(self).at(a)),
    ;

    /// Moves the items out into one contiguous vector.
    fn into_vec(self) -> (v: Vec<T>)
        ensures
            v@ == listed(self.count(), |i: usize| self.at(i)),
    ;
}

/// The items of a storage, in order.
pub open spec fn items<T, P: PinnedStorage<T>>(store: &P) -> Seq<T> {
    listed(store.count(), |i: usize| store.at(i))
}

} // verus!
