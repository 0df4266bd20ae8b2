use vstd::prelude::*;
use crate::elem_ref::ElemRef;
use crate::imp_vec::ImpVec;
use crate::storage::PinnedStorage;

verus! {

/// An element that refers to the element after it.
///
/// The two specification functions say what the link is and what the
/// element would be with another link; they are never called at run time.
pub trait SelfRefNext: Sized {
    /// The reference to the next element, if there is one.
    spec fn next_link(&self) -> Option<ElemRef>;

    /// The element that differs from `self` in its next link only, which is
    /// `next`.
    spec fn with_next_link(self, next: Option<ElemRef>) -> Self;

    fn next(&self) -> (link: Option<ElemRef>)
        ensures
            link == self.next_link(),
    ;

    fn set_next(&mut self, next: Option<ElemRef>)
        ensures
            *final(self) == old(self).with_next_link(next),
            final(self).next_link() == next,
    ;
}

/// An element that refers to the element before it.
///
/// The two specification functions say what the link is and what the
/// element would be with another link; they are never called at run time.
pub trait SelfRefPrev: Sized {
    /// The reference to the previous element, if there is one.
    spec fn prev_link(&self) -> Option<ElemRef>;

    /// The element that differs from `self` in its previous link only, which
    /// is `prev`.
    spec fn with_prev_link(self, prev: Option<ElemRef>) -> Self;

    fn prev(&self) -> (link: Option<ElemRef>)
        ensures
            link == self.prev_link(),
    ;

    fn set_prev(&mut self, prev: Option<ElemRef>)
        ensures
            *final(self) == old(self).with_prev_link(prev),
            final(self).prev_link() == prev,
    ;
}

/// Why a link was not set.
#[derive(Clone, Copy, Debug, PartialEq, Eq, Structural)]
pub enum LinkError {
    /// The element whose link was to be set does not belong to the vector.
    ElementNotInVec,
    /// The element that the link was to point at does not belong to the
    /// vector.
    TargetNotInVec,
}

impl LinkError {
    /// The sentence that describes the error.
    pub fn message(&self) -> (text: &'static str)
        ensures
            text@ == match self {
                LinkError::ElementNotInVec => "element does not belong to this vector"@,
                LinkError::TargetNotInVec => "target does not belong to this vector; references between elements are allowed only if both elements belong to the same vector"@,
            },
    {
        match self {
            LinkError::ElementNotInVec => "element does not belong to this vector",
            LinkError::TargetNotInVec => "target does not belong to this vector; references between elements are allowed only if both elements belong to the same vector",
        }
    }
}

impl<T, P: PinnedStorage<T>> ImpVec<T, P> {
    /// A link from `element` to `target` may be set: both belong to this
    /// vector.
    pub open spec fn can_link(&self, element: ElemRef, target: Option<ElemRef>) -> bool {
        &&& self.holds(element)
        &&& target matches Some(t) ==> self.holds(t)
    }

    /// What stands in the way of a link from `element` to `target`: the
    /// target is looked at first.
    pub open spec fn link_check(&self, element: ElemRef, target: Option<ElemRef>) -> Result<
        usize,
        LinkError,
    > {
        if target is Some && !self.holds(target->0) {
            Err(LinkError::TargetNotInVec)
        } else if !self.holds(element) {
            Err(LinkError::ElementNotInVec)
        } else {
            Ok(element.index)
        }
    }

    /// Finds the position of `element` for a link to `target`, or says which
    /// of the two does not belong to this vector.
    pub fn check_link(&self, element: ElemRef, target: Option<ElemRef>) -> (checked: Result<
        usize,
        LinkError,
    >)
        ensures
            checked == self.link_check(element, target),
            checked is Ok <==> self.can_link(element, target),
    {
        if let Some(t) = target {
            if self.index_of(t).is_none() {
                return Err(LinkError::TargetNotInVec);
            }
        }
        match self.index_of(element) {
            Some(index) => Ok(index),
            None => Err(LinkError::ElementNotInVec),
        }
    }
}

impl<T: SelfRefNext, P: PinnedStorage<T>> ImpVec<T, P> {
    /// Makes `element` point at `next` as its next element. No element
    /// moves, and every reference stays good.
    pub fn set_next(&mut self, element: ElemRef, next: Option<ElemRef>)
        requires
            old(self).can_link(element, next),
        ensures
            final(self)@ == old(self)@.update(
                element.index as int,
                old(self)@[element.index as int].with_next_link(next),
            ),
            final(self)@[element.index as int].next_link() == next,
            final(self).same_slots_as(old(self)),
            forall|r: ElemRef| old(self).holds(r) <==> final(self).holds(r),
    {
        match self.get_mut(element.index) {
            Some(node) => {
                node.set_next(next);
            },
            None => {},
        }
    }

    /// Makes `element` point at `next` as its next element if both belong to
    /// this vector; otherwise leaves everything as it is and says which of
    /// them does not.
    pub fn try_set_next(&mut self, element: ElemRef, next: Option<ElemRef>) -> (done: Result<
        (),
        LinkError,
    >)
        ensures
            final(self).same_slots_as(old(self)),
            forall|r: ElemRef| old(self).holds(r) <==> final(self).holds(r),
            match done {
                Ok(_) => {
                    &&& old(self).can_link(element, next)
                    &&& final(self)@ == old(self)@.update(
                        element.index as int,
                        old(self)@[element.index as int].with_next_link(next),
                    )
                    &&& final(self)@[element.index as int].next_link() == next
                },
                Err(e) => {
                    &&& old(self).link_check(element, next) == Err::<usize, LinkError>(e)
                    &&& final(self)@ == old(self)@
                },
            },
    {
        match self.check_link(element, next) {
            Ok(_) => {
                self.set_next(element, next);
                Ok(())
            },
            Err(e) => Err(e),
        }
    }
}

impl<T: SelfRefPrev, P: PinnedStorage<T>> ImpVec<T, P> {
    /// Makes `element` point at `prev` as its previous element. No element
    /// moves, and every reference stays good.
    pub fn set_prev(&mut self, element: ElemRef, prev: Option<ElemRef>)
        requires
            old(self).can_link(element, prev),
        ensures
            final(self)@ == old(self)@.update(
                element.index as int,
                old(self)@[element.index as int].with_prev_link(prev),
            ),
            final(self)@[element.index as int].prev_link() == prev,
            final(self).same_slots_as(old(self)),
            forall|r: ElemRef| old(self).holds(r) <==> final(self).holds(r),
    {
        match self.get_mut(element.index) {
            Some(node) => {
                node.set_prev(prev);
            },
            None => {},
        }
    }

    /// Makes `element` point at `prev` as its previous element if both belong
    /// to this vector; otherwise leaves everything as it is and says which
    /// of them does not.
    pub fn try_set_prev(&mut self, element: ElemRef, prev: Option<ElemRef>) -> (done: Result<
        (),
        LinkError,
    >)
        ensures
            final(self).same_slots_as(old(self)),
            forall|r: ElemRef| old(self).holds(r) <==> final(self).holds(r),
            match done {
                Ok(_) => {
                    &&& old(self).can_link(element, prev)
                    &&& final(self)@ == old(self)@.update(
                        element.index as int,
                        old(self)@[element.index as int].with_prev_link(prev),
                    )
                    &&& final(self)@[element.index as int].prev_link() == prev
                },
                Err(e) => {
                    &&& old(self).link_check(element, prev) == Err::<usize, LinkError>(e)
                    &&& final(self)@ == old(self)@
                },
            },
    {
        match self.check_link(element, prev) {
            Ok(_) => {
                self.set_prev(element, prev);
                Ok(())
            },
            Err(e) => Err(e),
        }
    }
}

} // verus!
