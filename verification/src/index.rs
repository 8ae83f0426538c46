//! Bounded indices of bits inside one memory element.

use vstd::prelude::*;
use vstd::std_specs::cmp::PartialEqSpecImpl;
use core::marker::PhantomData;
use crate::store::BitMemory;

verus! {

/// The semantic index of a bit inside an element of type `T`.
///
/// A value of this type is always less than the bit width of `T`.
#[derive(Debug)]
pub struct BitIdx<T: BitMemory> {
    idx: u8,
    _ty: PhantomData<T>,
}

/// The physical position of a bit inside an element of type `T`: position 0
/// is the least significant bit.
///
/// A value of this type is always less than the bit width of `T`.
#[derive(Debug)]
pub struct BitPos<T: BitMemory> {
    pos: u8,
    _ty: PhantomData<T>,
}

impl<T: BitMemory> View for BitIdx<T> {
    type V = nat;

    closed spec fn view(&self) -> nat {
        self.idx as nat
    }
}

impl<T: BitMemory> View for BitPos<T> {
    type V = nat;

    closed spec fn view(&self) -> nat {
        self.pos as nat
    }
}

impl<T: BitMemory> Clone for BitIdx<T> {
    fn clone(&self) -> (ret: Self)
        ensures
            ret == *self,
    {
        *self
    }
}

impl<T: BitMemory> Copy for BitIdx<T> {

}

impl<T: BitMemory> PartialEq for BitIdx<T> {
    /// Whether the two indices have the same numeric value.
    fn eq(&self, other: &Self) -> (ret: bool)
        ensures
            ret == (self@ == other@),
    {
        self.idx == other.idx
    }
}

impl<T: BitMemory> PartialEqSpecImpl for BitIdx<T> {
    open spec fn obeys_eq_spec() -> bool {
        true
    }

    open spec fn eq_spec(&self, other: &Self) -> bool {
        self@ == other@
    }
}

impl<T: BitMemory> Eq for BitIdx<T> {

}

impl<T: BitMemory> Clone for BitPos<T> {
    fn clone(&self) -> (ret: Self)
        ensures
            ret == *self,
    {
        *self
    }
}

impl<T: BitMemory> Copy for BitPos<T> {

}

impl<T: BitMemory> PartialEq for BitPos<T> {
    /// Whether the two positions have the same numeric value.
    fn eq(&self, other: &Self) -> (ret: bool)
        ensures
            ret == (self@ == other@),
    {
        self.pos == other.pos
    }
}

impl<T: BitMemory> PartialEqSpecImpl for BitPos<T> {
    open spec fn obeys_eq_spec() -> bool {
        true
    }

    open spec fn eq_spec(&self, other: &Self) -> bool {
        self@ == other@
    }
}

impl<T: BitMemory> Eq for BitPos<T> {

}

impl<T: BitMemory> BitIdx<T> {
    /// Whether the index lies inside an element of type `T`.
    #[verifier::type_invariant]
    pub open spec fn wf(self) -> bool {
        self@ < T::representation().width()
    }

    /// The index with the given numeric value.
    pub closed spec fn at(value: u8) -> Self {
        BitIdx { idx: value, _ty: PhantomData }
    }

    /// The numeric value of [`at`](BitIdx::at) is the one given.
    pub broadcast proof fn lemma_at_view(value: u8)
        ensures
            (#[trigger] Self::at(value))@ == value,
    {
    }

    /// Two indices with the same numeric value are the same.
    pub proof fn lemma_view_injective(self, other: Self)
        requires
            self@ == other@,
        ensures
            self == other,
    {
    }

    /// The index `value`, if it lies inside an element of type `T`.
    pub fn new(value: u8) -> (ret: Option<Self>)
        ensures
            ret is Some <==> value < T::representation().width(),
            ret is Some ==> ret.unwrap()@ == value,
    {
        if value < T::repr().bit_width() {
            Some(BitIdx { idx: value, _ty: PhantomData })
        } else {
            None
        }
    }

    /// The index of the first bit.
    pub fn zero() -> (ret: Self)
        ensures
            ret@ == 0,
    {
        BitIdx { idx: 0, _ty: PhantomData }
    }

    /// The index `value`, without any check.
    pub fn new_unchecked(value: u8) -> (ret: Self)
        requires
            value < T::representation().width(),
        ensures
            ret@ == value,
    {
        BitIdx { idx: value, _ty: PhantomData }
    }

    /// The index as a number.
    pub fn value(self) -> (v: u8)
        ensures
            v == self@,
            v < T::representation().width(),
    {
        proof {
            use_type_invariant(&self);
        }
        self.idx
    }
}

impl<T: BitMemory> BitPos<T> {
    /// Whether the position lies inside an element of type `T`.
    #[verifier::type_invariant]
    pub open spec fn wf(self) -> bool {
        self@ < T::representation().width()
    }

    /// The position `value`, if it lies inside an element of type `T`.
    pub fn new(value: u8) -> (ret: Option<Self>)
        ensures
            ret is Some <==> value < T::representation().width(),
            ret is Some ==> ret.unwrap()@ == value,
    {
        if value < T::repr().bit_width() {
            Some(BitPos { pos: value, _ty: PhantomData })
        } else {
            None
        }
    }

    /// The position `value`, without any check.
    pub fn new_unchecked(value: u8) -> (ret: Self)
        requires
            value < T::representation().width(),
        ensures
            ret@ == value,
    {
        BitPos { pos: value, _ty: PhantomData }
    }

    /// The position as a number.
    pub fn value(self) -> (v: u8)
        ensures
            v == self@,
            v < T::representation().width(),
    {
        proof {
            use_type_invariant(&self);
        }
        self.pos
    }
}

} // verus!

