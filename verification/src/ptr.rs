//! Addresses of memory elements and pointers to single bits.

pub mod address;
pub mod single;

pub use address::{Address, AddressError};
pub use single::BitPtr;

use vstd::prelude::*;

verus! {

/// What the parts of addresses, indices and pointers are once they are put
/// together.
pub broadcast group group_pointer_model {
    Address::lemma_at_view,
    crate::index::BitIdx::lemma_at_view,
    BitPtr::lemma_parts_of_from_parts,
}

} // verus!
