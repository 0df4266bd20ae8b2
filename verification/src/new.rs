use vstd::prelude::*;
use orx_fixed_vec::FixedVec;
use crate::fixed_store::{fixed_new, FIXED_CAPACITY_MAX};
use crate::imp_vec::ImpVec;
use crate::split_store::{SplitStore, SPLIT_LIMIT};

verus! {

impl ImpVec<usize, SplitStore> {
    /// An empty vector over the default storage: a split vector with
    /// doubling growth.
    pub fn new() -> (vec: Self)
        ensures
            vec@ == Seq::<usize>::empty(),
            vec.limit() == SPLIT_LIMIT,
    {
        ImpVec::from(SplitStore::new())
    }

    /// An empty vector over a split vector with doubling growth.
    pub fn with_doubling_growth() -> (vec: Self)
        ensures
            vec@ == Seq::<usize>::empty(),
            vec.limit() == SPLIT_LIMIT,
    {
        ImpVec::new()
    }
}

impl ImpVec<usize, FixedVec<usize>> {
    /// An empty vector over a fixed vector, which never holds more than
    /// `fixed_capacity` elements.
    pub fn with_fixed_capacity(fixed_capacity: usize) -> (vec: Self)
        requires
            fixed_capacity <= FIXED_CAPACITY_MAX,
        ensures
            vec@ == Seq::<usize>::empty(),
            vec.limit() == fixed_capacity,
    {
        ImpVec::from(fixed_new(fixed_capacity))
    }
}

impl Default for ImpVec<usize, SplitStore> {
    fn default() -> (vec: Self)
        ensures
            vec@ == Seq::<usize>::empty(),
            vec.limit() == SPLIT_LIMIT,
    {
        ImpVec::new()
    }
}

} // verus!
