//! Orderings of the bits inside a memory element.

use vstd::prelude::*;
use crate::index::{BitIdx, BitPos};
use crate::store::BitMemory;

verus! {

/// A numbering of the bits of an element: a map from the semantic index of a
/// bit to its physical position, one to one over the element's width.
pub trait BitOrder: Sized {
    /// The physical position of the bit with semantic index `index` in an
    /// element of `width` bits.
    spec fn position(index: nat, width: nat) -> nat;

    /// A position lies inside the element.
    proof fn lemma_position_in_range(index: nat, width: nat)
        requires
            index < width,
        ensures
            Self::position(index, width) < width,
    ;

    /// Two indices with the same position are the same index.
    proof fn lemma_position_injective(a: nat, b: nat, width: nat)
        requires
            a < width,
            b < width,
            Self::position(a, width) == Self::position(b, width),
        ensures
            a == b,
    ;

    /// The physical position of the bit with semantic index `index`.
    fn at<T: BitMemory>(index: BitIdx<T>) -> (pos: BitPos<T>)
        ensures
            pos@ == Self::position(index@, T::representation().width()),
    ;
}

/// Index 0 is the least significant bit.
#[derive(Clone, Copy, Debug)]
pub struct Lsb0;

/// Index 0 is the most significant bit.
#[derive(Clone, Copy, Debug)]
pub struct Msb0;

impl BitOrder for Lsb0 {
    open spec fn position(index: nat, width: nat) -> nat {
        index
    }

    proof fn lemma_position_in_range(index: nat, width: nat) {
    }

    proof fn lemma_position_injective(a: nat, b: nat, width: nat) {
    }

    fn at<T: BitMemory>(index: BitIdx<T>) -> (pos: BitPos<T>) {
        BitPos::new_unchecked(index.value())
    }
}

impl BitOrder for Msb0 {
    open spec fn position(index: nat, width: nat) -> nat {
        (width - 1 - index) as nat
    }

    proof fn lemma_position_in_range(index: nat, width: nat) {
    }

    proof fn lemma_position_injective(a: nat, b: nat, width: nat) {
    }

    fn at<T: BitMemory>(index: BitIdx<T>) -> (pos: BitPos<T>) {
        BitPos::new_unchecked(T::repr().bit_width() - 1 - index.value())
    }
}

} // verus!
