use vstd::prelude::*;

verus! {

/// A reference to an element of an [`crate::ImpVec`], held by value.
///
/// It names the vector that gave it out (`brand`), the state of that
/// vector's layout at the time (`epoch`) and the position of the element
/// (`index`). Elements can store such references to one another: the vector
/// honours one for as long as it only grows, and refuses it after a
/// structural edit or when it comes from another vector.
#[derive(Clone, Copy, Debug, PartialEq, Eq, Structural)]
pub struct ElemRef {
    pub brand: usize,
    pub epoch: usize,
    pub index: usize,
}

} // verus!
