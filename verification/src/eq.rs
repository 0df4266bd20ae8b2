use vstd::prelude::*;
use vstd::std_specs::cmp::{PartialEqSpec, PartialEqSpecImpl};
use crate::imp_vec::ImpVec;
use crate::storage::PinnedStorage;

verus! {

/// Two sequences have the same length and equal elements at every position,
/// as `T`'s own `==` sees it.
pub open spec fn same_elements<T: PartialEq>(left: Seq<T>, right: Seq<T>) -> bool {
    &&& left.len() == right.len()
    &&& forall|i: int| 0 <= i < left.len() ==> #[trigger] left[i].eq_spec(&right[i])
}

/// Two vectors are equal when they hold equal elements in the same order,
/// whatever storage each of them wraps and whichever vector each of them is.
impl<T: PartialEq, P: PinnedStorage<T>, Q: PinnedStorage<T>> PartialEqSpecImpl<
    ImpVec<T, Q>,
> for ImpVec<T, P> {
    open spec fn obeys_eq_spec() -> bool {
        T::obeys_eq_spec()
    }

    open spec fn eq_spec(&self, other: &ImpVec<T, Q>) -> bool {
        same_elements(self@, other@)
    }
}

impl<T: PartialEq, P: PinnedStorage<T>, Q: PinnedStorage<T>> PartialEq<
    ImpVec<T, Q>,
> for ImpVec<T, P> {
    fn eq(&self, other: &ImpVec<T, Q>) -> (equal: bool) {
        let n = self.len();
        if n != other.len() {
            return false;
        }
        let mut i: usize = 0;
        while i < n
            invariant
                i <= n,
                n == self@.len(),
                n == other@.len(),
                T::obeys_eq_spec() ==> forall|j: int|
                    0 <= j < i ==> #[trigger] self@[j].eq_spec(&other@[j]),
            decreases n - i,
        {
            let same = match (self.get(i), other.get(i)) {
                (Some(x), Some(y)) => *x == *y,
                _ => false,
            };
            if !same {
                return false;
            }
            i = i + 1;
        }
        true
    }
}

} // verus!
