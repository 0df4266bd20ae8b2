//! A vector over a pinned storage whose elements can refer to one another.
//!
//! An [`ImpVec`] wraps a storage that never moves an element when another is
//! appended ([`PinnedStorage`]). It hands out references to its elements by
//! value ([`ElemRef`]); elements may keep such references to other elements
//! of the same vector, which is how lists, trees and rings are laid out in
//! one vector without a separate allocation per node.
//!
//! What the vector promises, and what is proved of it here:
//! - appending (`push`, `push_get_ref`, `extend`, `extend_from_slice`) leaves
//!   every element at its position with its value, and every reference
//!   given out before stays good;
//! - writing to a slot (`get_mut`, `replace_at`, `move_get_ref`, `set_next`,
//!   `set_prev`) changes what the slot holds and nothing else;
//! - a structural edit (`insert`, `remove`, `pop`, `clear`) starts a new
//!   epoch: the references given out before are refused from then on;
//! - a reference from another vector is always refused.
//!
//! Every mutation goes through `&mut self`. A caller that wants to append
//! through a shared reference puts the vector in a cell of its own.

pub mod elem_ref;
pub mod eq;
pub mod fixed_store;
pub mod imp_vec;
pub mod index;
pub mod iter;
pub mod laws;
pub mod mem;
pub mod new;
pub mod ring;
pub mod self_ref;
pub mod split_store;
pub mod storage;

pub use elem_ref::ElemRef;
pub use orx_fixed_vec::FixedVec;
pub use imp_vec::ImpVec;
pub use iter::{ImpVecIter, ImpVecIterMut};
pub use self_ref::{LinkError, SelfRefNext, SelfRefPrev};
pub use split_store::SplitStore;
pub use storage::PinnedStorage;
