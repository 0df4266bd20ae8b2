use vstd::prelude::*;
use crate::elem_ref::ElemRef;
use crate::imp_vec::ImpVec;
use crate::self_ref::LinkError;
use crate::storage::{items, PinnedStorage};

verus! {

/// Growth composes: what came from `middle` by appending, where `middle`
/// came from `first` by appending, came from `first` by appending. So what
/// holds of one append holds of any run of them.
pub proof fn law_growth_is_transitive<T, P: PinnedStorage<T>>(
    first: &ImpVec<T, P>,
    middle: &ImpVec<T, P>,
    last: &ImpVec<T, P>,
)
    requires
        middle.grew_from(first),
        last.grew_from(middle),
    ensures
        last.grew_from(first),
{
    let a = first@;
    let b = middle@;
    let c = last@;
    assert forall|i: int| 0 <= i < a.len() implies c[i] == a[i] by {
        assert(b.subrange(0, a.len() as int)[i] == b[i]);
        assert(c.subrange(0, b.len() as int)[i] == c[i]);
    }
    assert(c.subrange(0, a.len() as int) =~= a);
}

/// Appending disturbs nothing: after any run of appends every element that
/// was there is at the same position with the same value, and every
/// reference that was honoured is honoured still and points at the same
/// element.
pub proof fn law_growth_keeps_elements<T, P: PinnedStorage<T>>(
    before: &ImpVec<T, P>,
    after: &ImpVec<T, P>,
)
    requires
        after.grew_from(before),
    ensures
        forall|i: int| 0 <= i < before@.len() ==> after@[i] == before@[i],
        forall|r: ElemRef| #[trigger]
            before.holds(r) ==> after.holds(r) && after@[r.index as int] == before@[r.index as int],
        forall|index: usize| #[trigger] after.ref_to(index) == before.ref_to(index),
{
    assert forall|i: int| 0 <= i < before@.len() implies after@[i] == before@[i] by {
        assert(after@.subrange(0, before@.len() as int)[i] == after@[i]);
    }
}

/// A structural edit ends the life of every reference given out before it.
pub proof fn law_edit_ends_references<T, P: PinnedStorage<T>>(
    before: &ImpVec<T, P>,
    after: &ImpVec<T, P>,
    r: ElemRef,
)
    requires
        after.edited_from(before),
        before.holds(r),
    ensures
        !after.holds(r),
{
}

/// Wrapping a storage and unwrapping it again gives the storage back; and
/// after appends in between, the storage that comes back holds what it held
/// before followed by what was appended, in order.
///
/// `wrapped` is the vector made from `store`, `grown` the vector after
/// `added` has been appended to it.
pub proof fn law_wrap_then_unwrap<T, P: PinnedStorage<T>>(
    store: &P,
    wrapped: &ImpVec<T, P>,
    grown: &ImpVec<T, P>,
    added: Seq<T>,
)
    requires
        wrapped.storage() == *store,
        grown@ == wrapped@ + added,
    ensures
        wrapped.storage() == *store,
        wrapped@ == items(store),
        items(&grown.storage()) == items(store) + added,
{
}

/// A reference that one vector honours is refused by every vector of
/// another brand, as the element of a link and as its target.
pub proof fn law_foreign_reference_is_refused<T, P: PinnedStorage<T>, Q: PinnedStorage<T>>(
    home: &ImpVec<T, P>,
    other: &ImpVec<T, Q>,
    r: ElemRef,
    own: ElemRef,
)
    requires
        home.brand() != other.brand(),
        home.holds(r),
        other.holds(own),
    ensures
        !other.holds(r),
        !other.can_link(r, Some(own)),
        !other.can_link(own, Some(r)),
        other.link_check(r, Some(own)) == Err::<usize, LinkError>(LinkError::ElementNotInVec),
        other.link_check(own, Some(r)) == Err::<usize, LinkError>(LinkError::TargetNotInVec),
{
}

} // verus!
