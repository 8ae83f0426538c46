//! A pointer to one bit inside a memory element.
//!
//! An ordinary pointer names a whole memory element. A [`BitPtr`] names an
//! element by its address and one bit inside it by a bounded index, which a
//! [`BitOrder`] maps to a physical position in the element. A type-level tag,
//! [`Const`] or [`Mut`], says whether the bit may be written.
//!
//! The modules:
//!
//! - [`store`]: the memory elements, modelled as sequences of bits;
//! - [`index`]: indices and positions of bits, bounded by an element's width;
//! - [`order`]: the maps from indices to positions;
//! - [`mutability`]: the access tags;
//! - [`ptr`]: validated element addresses, and the bit pointer itself.
//!
//! A pointer is a plain value and this library never goes to memory through
//! it. Reading and writing take the referent element from the caller and say
//! which of its bits is read or changed.
//!
//! Every function here is verified against its contract. Beside the
//! contracts stand proof functions that state what holds across several
//! operations: that a pointer gives back the parts it was made from, that an
//! invalid address is always refused, that a write changes the bit written
//! and no other, that a second equal write changes nothing, and how pointers
//! are compared and ordered.

pub mod index;
pub mod mutability;
pub mod order;
pub mod ptr;
pub mod store;

pub use index::{BitIdx, BitPos};
pub use mutability::{Const, Mut, Mutability};
pub use order::{BitOrder, Lsb0, Msb0};
pub use ptr::{Address, AddressError, BitPtr};
pub use store::{BitMemory, BitStore, Representation};
