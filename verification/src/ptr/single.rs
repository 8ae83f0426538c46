//! Pointers to single bits.
//!
//! A [`BitPtr`] is a value: an address and an index. It owns no memory and
//! never touches any. To read or write the bit it points at, its caller
//! hands it the referent element; the pointer says which bit of that element
//! is meant, under its bit order.

use vstd::prelude::*;
use vstd::layout::align_of;
use vstd::std_specs::cmp::{PartialEqSpecImpl, PartialOrdSpecImpl};
use vstd::std_specs::convert::{FromSpecImpl, TryFromSpecImpl, TryIntoSpec};
use core::cmp::Ordering;
use core::marker::PhantomData;
use crate::index::BitIdx;
use crate::mutability::{Const, Mut, Mutability};
use crate::order::BitOrder;
use crate::ptr::address::{valid_address, Address, AddressError};
use crate::ptr::group_pointer_model;
use crate::store::BitStore;

verus! {

/// An opaque pointer to a single bit in a memory element.
///
/// The pointer holds the address of an element of type `T` and the index of
/// one bit inside it. The order `O` maps that index to a physical position.
/// The tag `M` says whether the bit may be written through the pointer.
///
/// A pointer is never changed: what looks like a change makes a new pointer.
/// It is copied freely, as a raw pointer is, and it cannot be turned into
/// one.
#[derive(Debug)]
pub struct BitPtr<O, T, M> where O: BitOrder, T: BitStore, M: Mutability {
    addr: Address<T, M>,
    head: BitIdx<T>,
    _ord: PhantomData<O>,
}

/// How the bit `head_a` of the element at `addr_a` is ordered against the bit
/// `head_b` of the element at `addr_b`: by address first, then by index.
pub open spec fn order_of(addr_a: nat, head_a: nat, addr_b: nat, head_b: nat) -> Ordering {
    if addr_a < addr_b {
        Ordering::Less
    } else if addr_a > addr_b {
        Ordering::Greater
    } else if head_a < head_b {
        Ordering::Less
    } else if head_a > head_b {
        Ordering::Greater
    } else {
        Ordering::Equal
    }
}

// The model of a pointer.
impl<O, T, M> BitPtr<O, T, M> where O: BitOrder, T: BitStore, M: Mutability {
    /// The address of the referent element.
    pub closed spec fn address(self) -> Address<T, M> {
        self.addr
    }

    /// The index of the referent bit inside its element.
    pub closed spec fn bit_index(self) -> BitIdx<T> {
        self.head
    }

    /// The pointer to bit `head` of the element at `addr`.
    pub closed spec fn from_parts(addr: Address<T, M>, head: BitIdx<T>) -> Self {
        BitPtr { addr, head, _ord: PhantomData }
    }

    /// Whether the address is valid for `T` and the index lies inside an
    /// element of type `T`.
    #[verifier::type_invariant]
    pub open spec fn wf(self) -> bool {
        self.address().wf() && self.bit_index().wf()
    }

    /// What constructing a pointer from the number `value` and the index
    /// `head` gives: the pointer to bit `head` of the element at `value`, or
    /// why `value` is not the address of an element.
    pub open spec fn checked(value: usize, head: BitIdx<T>) -> Result<Self, AddressError> {
        match Address::<T, M>::checked(value) {
            Ok(addr) => Ok(Self::from_parts(addr, head)),
            Err(e) => Err(e),
        }
    }

    /// The pointer to the first bit of the element at `addr`.
    pub open spec fn first_bit(addr: Address<T, M>) -> Self {
        Self::from_parts(addr, BitIdx::at(0))
    }

    /// What converting the number `value` to a pointer gives: the pointer
    /// to the first bit of the element at `value`, or why `value` is not the
    /// address of an element.
    pub open spec fn first_bit_at(value: usize) -> Result<Self, AddressError> {
        Self::checked(value, BitIdx::at(0))
    }

    /// The physical position of the referent bit inside its element.
    pub open spec fn position(self) -> nat {
        O::position(self.bit_index()@, T::representation().width())
    }

    /// What reading through the pointer gives when `elem` is the referent
    /// element.
    pub open spec fn read_from(self, elem: T) -> bool {
        elem.bits()[self.position() as int]
    }

    /// Whether the two pointers have element types of one representation,
    /// the same address and the same index.
    pub open spec fn same_as<U: BitStore, N: Mutability>(self, other: BitPtr<O, U, N>) -> bool {
        &&& T::representation() == U::representation()
        &&& self.address()@ == other.address()@
        &&& self.bit_index()@ == other.bit_index()@
    }

    /// How the two pointers are ordered: not at all if their element types
    /// differ in representation, else by address first, then by index.
    pub open spec fn compare<U: BitStore, N: Mutability>(
        self,
        other: BitPtr<O, U, N>,
    ) -> Option<Ordering> {
        if T::representation() != U::representation() {
            None
        } else {
            Some(
                order_of(
                    self.address()@,
                    self.bit_index()@,
                    other.address()@,
                    other.bit_index()@,
                ),
            )
        }
    }
}

impl<O, T> BitPtr<O, T, Mut> where O: BitOrder, T: BitStore {
    /// The bits of the referent element `elem` after `value` is written
    /// through the pointer: the referent bit is `value`, every other bit is
    /// as it was.
    pub open spec fn written_to(self, elem: T, value: bool) -> Seq<bool> {
        elem.bits().update(self.position() as int, value)
    }
}

impl<O, T, M> BitPtr<O, T, M> where O: BitOrder, T: BitStore, M: Mutability {
    /// Constructs a pointer from something that can be checked to be the
    /// address of an element, and the index of a bit in that element.
    ///
    /// A number is such a source: it gives a pointer unless it is null or
    /// misaligned for `T`.
    pub fn new<A>(addr: A, head: BitIdx<T>) -> (ret: Result<Self, AddressError>) where
        A: TryInto<Address<T, M>, Error = AddressError>,

        ensures
            A::obeys_try_into_spec() ==> ret == match addr.try_into_spec() {
                Ok(a) => Ok(Self::from_parts(a, head)),
                Err(e) => Err(e),
            },
            ret is Ok ==> ret.unwrap().bit_index() == head,
    {
        match addr.try_into() {
            Ok(a) => Ok(Self::new_unchecked(a, head)),
            Err(e) => Err(e),
        }
    }

    /// Constructs a pointer from the address of an element and the index of
    /// a bit in that element. Nothing is checked: the address is valid as
    /// every address is, and whether an element lies there is for the one
    /// who reads or writes through the pointer to know.
    pub fn new_unchecked(addr: Address<T, M>, head: BitIdx<T>) -> (ret: Self)
        ensures
            ret == Self::from_parts(addr, head),
    {
        proof {
            use_type_invariant(&addr);
            use_type_invariant(&head);
        }
        BitPtr { addr, head, _ord: PhantomData }
    }

    /// The pointer that stands for no bit: the first bit at the dangling
    /// address of `T`. It stands in where a pointer is needed and no bit is
    /// meant, and is never to be read or written through.
    pub fn dangling() -> (ret: Self)
        ensures
            ret.address()@ == align_of::<T>(),
            ret.bit_index()@ == 0,
    {
        Self::new_unchecked(Address::dangling(), BitIdx::zero())
    }

    /// Decomposes the pointer into its element address and bit index.
    pub fn raw_parts(self) -> (ret: (Address<T, M>, BitIdx<T>))
        ensures
            ret == (self.address(), self.bit_index()),
    {
        (self.addr, self.head)
    }

    /// Reads the referent bit out of `elem`.
    ///
    /// The caller hands over the referent: the element that lies at the
    /// pointer's address. The result is the bit of `elem` at the position
    /// that the order `O` gives the pointer's index.
    pub fn read(self, elem: &T) -> (bit: bool)
        ensures
            bit == self.read_from(*elem),
    {
        elem.get_bit(O::at(self.head))
    }

    /// Orders two pointers of one type: by address first, then by index.
    pub fn cmp(&self, other: &Self) -> (ret: Ordering)
        ensures
            Some(ret) == self.compare(*other),
    {
        self.partial_cmp(other).unwrap()
    }
}

impl<O, T> BitPtr<O, T, Mut> where O: BitOrder, T: BitStore {
    /// Writes `value` into the referent bit of `elem`.
    ///
    /// The caller hands over the referent: the element that lies at the
    /// pointer's address. The bit of `elem` at the position that the order
    /// `O` gives the pointer's index becomes `value`; every other bit of
    /// `elem` stays as it was.
    pub fn write(self, elem: &mut T, value: bool)
        ensures
            final(elem).bits() == self.written_to(*old(elem), value),
    {
        elem.set_bit(O::at(self.head), value)
    }
}

impl<O, T, M> Clone for BitPtr<O, T, M> where O: BitOrder, T: BitStore, M: Mutability {
    fn clone(&self) -> (ret: Self)
        ensures
            ret == *self,
    {
        *self
    }
}

impl<O, T, M> Copy for BitPtr<O, T, M> where O: BitOrder, T: BitStore, M: Mutability {

}

impl<O, T, M> Eq for BitPtr<O, T, M> where O: BitOrder, T: BitStore, M: Mutability {

}

impl<O, T, U, M, N> PartialEq<BitPtr<O, U, N>> for BitPtr<O, T, M> where
    O: BitOrder,
    T: BitStore,
    U: BitStore,
    M: Mutability,
    N: Mutability,
 {
    /// Whether the two pointers have element types of one representation,
    /// the same address and the same index.
    fn eq(&self, other: &BitPtr<O, U, N>) -> (ret: bool)
        ensures
            ret == self.same_as(*other),
    {
        if T::repr() != U::repr() {
            return false;
        }
        self.addr.value() == other.addr.value() && self.head.value() == other.head.value()
    }
}

impl<O, T, U, M, N> PartialEqSpecImpl<BitPtr<O, U, N>> for BitPtr<O, T, M> where
    O: BitOrder,
    T: BitStore,
    U: BitStore,
    M: Mutability,
    N: Mutability,
 {
    open spec fn obeys_eq_spec() -> bool {
        true
    }

    open spec fn eq_spec(&self, other: &BitPtr<O, U, N>) -> bool {
        self.same_as(*other)
    }
}

impl<O, T, U, M, N> PartialOrd<BitPtr<O, U, N>> for BitPtr<O, T, M> where
    O: BitOrder,
    T: BitStore,
    U: BitStore,
    M: Mutability,
    N: Mutability,
 {
    /// Orders the two pointers by address first, then by index, if their
    /// element types have one representation.
    fn partial_cmp(&self, other: &BitPtr<O, U, N>) -> (ret: Option<Ordering>)
        ensures
            ret == self.compare(*other),
    {
        if T::repr() != U::repr() {
            return None;
        }
        match self.addr.value().cmp(&other.addr.value()) {
            Ordering::Equal => self.head.value().partial_cmp(&other.head.value()),
            ord => Some(ord),
        }
    }
}

impl<O, T, U, M, N> PartialOrdSpecImpl<BitPtr<O, U, N>> for BitPtr<O, T, M> where
    O: BitOrder,
    T: BitStore,
    U: BitStore,
    M: Mutability,
    N: Mutability,
 {
    open spec fn obeys_partial_cmp_spec() -> bool {
        true
    }

    open spec fn partial_cmp_spec(&self, other: &BitPtr<O, U, N>) -> Option<Ordering> {
        self.compare(*other)
    }
}

impl<O, T, M> From<Address<T, M>> for BitPtr<O, T, M> where
    O: BitOrder,
    T: BitStore,
    M: Mutability,
 {
    /// The pointer to the first bit of the element at `src`.
    fn from(src: Address<T, M>) -> (ret: Self)
        ensures
            ret == Self::first_bit(src),
    {
        broadcast use group_pointer_model;

        let head = BitIdx::zero();
        proof {
            head.lemma_view_injective(BitIdx::at(0));
        }
        Self::new_unchecked(src, head)
    }
}

impl<O, T, M> FromSpecImpl<Address<T, M>> for BitPtr<O, T, M> where
    O: BitOrder,
    T: BitStore,
    M: Mutability,
 {
    open spec fn obeys_from_spec() -> bool {
        true
    }

    open spec fn from_spec(src: Address<T, M>) -> Self {
        Self::first_bit(src)
    }
}

impl<'a, O, T> From<&'a T> for BitPtr<O, T, Const> where O: BitOrder, T: BitStore {
    /// The pointer to the first bit of the element behind `src`: the first
    /// bit at some address that is valid for `T`.
    fn from(src: &'a T) -> (ret: Self)
        ensures
            ret.address().wf(),
            ret == Self::first_bit(ret.address()),
    {
        BitPtr::from(Address::from(src))
    }
}

impl<'a, O, T> FromSpecImpl<&'a T> for BitPtr<O, T, Const> where O: BitOrder, T: BitStore {
    open spec fn obeys_from_spec() -> bool {
        false
    }

    open spec fn from_spec(src: &'a T) -> Self {
        arbitrary()
    }
}

impl<'a, O, T> From<&'a mut T> for BitPtr<O, T, Mut> where O: BitOrder, T: BitStore {
    /// The pointer to the first bit of the element behind `src`: the first
    /// bit at some address that is valid for `T`.
    fn from(src: &'a mut T) -> (ret: Self)
        ensures
            ret.address().wf(),
            ret == Self::first_bit(ret.address()),
    {
        BitPtr::from(Address::from(src))
    }
}

impl<'a, O, T> FromSpecImpl<&'a mut T> for BitPtr<O, T, Mut> where O: BitOrder, T: BitStore {
    open spec fn obeys_from_spec() -> bool {
        false
    }

    open spec fn from_spec(src: &'a mut T) -> Self {
        arbitrary()
    }
}

impl<O, T, M> TryFrom<usize> for BitPtr<O, T, M> where
    O: BitOrder,
    T: BitStore,
    M: Mutability,
 {
    type Error = AddressError;

    /// The pointer to the first bit of the element at the address `src`, if
    /// `src` is not null and is aligned for `T`.
    fn try_from(src: usize) -> (ret: Result<Self, AddressError>)
        ensures
            ret == Self::first_bit_at(src),
    {
        match Address::new(src) {
            Ok(addr) => Ok(BitPtr::from(addr)),
            Err(e) => Err(e),
        }
    }
}

impl<O, T, M> TryFromSpecImpl<usize> for BitPtr<O, T, M> where
    O: BitOrder,
    T: BitStore,
    M: Mutability,
 {
    open spec fn obeys_try_from_spec() -> bool {
        true
    }

    open spec fn try_from_spec(src: usize) -> Result<Self, AddressError> {
        Self::first_bit_at(src)
    }
}

// What holds of construction and decomposition.
impl<O, T, M> BitPtr<O, T, M> where O: BitOrder, T: BitStore, M: Mutability {
    /// A pointer put together from an address and an index has that address
    /// and that index.
    pub broadcast proof fn lemma_parts_of_from_parts(addr: Address<T, M>, head: BitIdx<T>)
        ensures
            (#[trigger] Self::from_parts(addr, head)).address() == addr,
            Self::from_parts(addr, head).bit_index() == head,
    {
    }

    /// A pointer is the one put together from its own address and index.
    pub proof fn lemma_from_parts_of_parts(self)
        ensures
            Self::from_parts(self.address(), self.bit_index()) == self,
    {
    }

    /// A number is a source that `new` takes for an address: converting it
    /// checks it.
    pub proof fn lemma_number_as_source(value: usize)
        ensures
            <usize as TryIntoSpec<Address<T, M>>>::obeys_try_into_spec(),
            <usize as TryIntoSpec<Address<T, M>>>::try_into_spec(value) == Address::<T, M>::checked(
                value,
            ),
    {
    }

    /// A pointer constructed from a valid address and an index has that
    /// address and that index.
    pub proof fn lemma_checked_round_trip(value: usize, head: BitIdx<T>)
        requires
            valid_address::<T>(value as nat),
        ensures
            Self::checked(value, head) is Ok,
            Self::checked(value, head).unwrap().address()@ == value,
            Self::checked(value, head).unwrap().bit_index() == head,
    {
        broadcast use group_pointer_model;

    }

    /// No pointer is constructed from a number that is null or misaligned
    /// for `T`, whatever the index, and the error says which of the two the
    /// number is.
    pub proof fn lemma_checked_rejects(value: usize, head: BitIdx<T>)
        requires
            !valid_address::<T>(value as nat),
        ensures
            Self::checked(value, head) == Err::<Self, AddressError>(
                if value == 0 {
                    AddressError::Null
                } else {
                    AddressError::Misaligned(value)
                },
            ),
    {
    }
}

// What holds of equality and order.
impl<O, T, M> BitPtr<O, T, M> where O: BitOrder, T: BitStore, M: Mutability {
    /// Pointers whose element types differ in representation are never equal
    /// and never ordered, whatever their addresses and indices.
    pub proof fn lemma_unlike_representations<U: BitStore, N: Mutability>(
        self,
        other: BitPtr<O, U, N>,
    )
        requires
            T::representation() != U::representation(),
        ensures
            !self.same_as(other),
            self.compare(other) is None,
    {
    }

    /// Pointers whose element types have one representation are ordered by
    /// address first and, at one address, by index. They are equal exactly
    /// when neither comes before the other.
    pub proof fn lemma_like_representations<U: BitStore, N: Mutability>(
        self,
        other: BitPtr<O, U, N>,
    )
        requires
            T::representation() == U::representation(),
        ensures
            self.address()@ < other.address()@ ==> self.compare(other) == Some(Ordering::Less),
            self.address()@ > other.address()@ ==> self.compare(other) == Some(Ordering::Greater),
            self.address()@ == other.address()@ && self.bit_index()@ < other.bit_index()@
                ==> self.compare(other) == Some(Ordering::Less),
            self.address()@ == other.address()@ && self.bit_index()@ > other.bit_index()@
                ==> self.compare(other) == Some(Ordering::Greater),
            self.address()@ == other.address()@ && self.bit_index()@ == other.bit_index()@
                ==> self.compare(other) == Some(Ordering::Equal),
            self.same_as(other) <==> self.compare(other) == Some(Ordering::Equal),
    {
    }

    /// Equal pointers of one type are the same pointer.
    pub proof fn lemma_same_as_is_equality(self, other: Self)
        requires
            self.same_as(other),
        ensures
            self == other,
    {
        self.addr.lemma_view_injective(other.addr);
        self.head.lemma_view_injective(other.head);
    }

    /// The order turns around when its sides are exchanged.
    pub proof fn lemma_compare_antisymmetric<U: BitStore, N: Mutability>(
        self,
        other: BitPtr<O, U, N>,
    )
        ensures
            self.compare(other) == Some(Ordering::Less) <==> other.compare(self) == Some(
                Ordering::Greater,
            ),
            self.compare(other) == Some(Ordering::Equal) <==> other.compare(self) == Some(
                Ordering::Equal,
            ),
            self.compare(other) is None <==> other.compare(self) is None,
    {
    }

    /// What comes before a pointer comes before all that the pointer comes
    /// before.
    pub proof fn lemma_compare_transitive<U: BitStore, N: Mutability, V: BitStore, P: Mutability>(
        self,
        middle: BitPtr<O, U, N>,
        last: BitPtr<O, V, P>,
    )
        requires
            self.compare(middle) == Some(Ordering::Less),
            middle.compare(last) == Some(Ordering::Less),
        ensures
            self.compare(last) == Some(Ordering::Less),
    {
    }
}

// What holds of reading and writing.
impl<O, T, M> BitPtr<O, T, M> where O: BitOrder, T: BitStore, M: Mutability {
    /// The referent bit lies inside the referent element.
    pub proof fn lemma_position_in_range(self)
        requires
            self.wf(),
        ensures
            self.position() < T::representation().width(),
    {
        O::lemma_position_in_range(self.bit_index()@, T::representation().width());
    }

    /// Two pointers to one bit read alike, whatever access they grant; so do
    /// a pointer and its copy.
    pub proof fn lemma_same_pointers_read_alike<N: Mutability>(
        self,
        other: BitPtr<O, T, N>,
        elem: T,
    )
        requires
            self.same_as(other),
        ensures
            self.read_from(elem) == other.read_from(elem),
    {
        self.head.lemma_view_injective(other.head);
    }
}

impl<O, T> BitPtr<O, T, Mut> where O: BitOrder, T: BitStore {
    /// After a write through a pointer, the bit written reads as the value
    /// written, and every other bit of the element reads as it did before.
    pub proof fn lemma_read_after_write<N: Mutability>(
        self,
        reader: BitPtr<O, T, N>,
        before: T,
        after: T,
        value: bool,
    )
        requires
            self.wf(),
            reader.wf(),
            after.bits() == self.written_to(before, value),
        ensures
            reader.read_from(after) == (if reader.bit_index()@ == self.bit_index()@ {
                value
            } else {
                reader.read_from(before)
            }),
    {
        let width = T::representation().width();
        before.lemma_bits_len();
        O::lemma_position_in_range(self.bit_index()@, width);
        O::lemma_position_in_range(reader.bit_index()@, width);
        if reader.bit_index()@ != self.bit_index()@ && reader.position() == self.position() {
            O::lemma_position_injective(reader.bit_index()@, self.bit_index()@, width);
        }
    }

    /// After a set bit is written into an element of zeros, the bit written
    /// reads as set and every other bit of the element reads as clear.
    pub proof fn lemma_read_after_set_in_zeros<N: Mutability>(
        self,
        reader: BitPtr<O, T, N>,
        zeros: T,
        after: T,
    )
        requires
            self.wf(),
            reader.wf(),
            forall|i: int| 0 <= i < zeros.bits().len() ==> !zeros.bits()[i],
            after.bits() == self.written_to(zeros, true),
        ensures
            reader.read_from(after) == (reader.bit_index()@ == self.bit_index()@),
    {
        self.lemma_read_after_write(reader, zeros, after, true);
        zeros.lemma_bits_len();
        O::lemma_position_in_range(reader.bit_index()@, T::representation().width());
    }

    /// Writing a value twice leaves the element as writing it once does.
    pub proof fn lemma_write_twice(self, before: T, once: T, twice: T, value: bool)
        requires
            self.wf(),
            once.bits() == self.written_to(before, value),
            twice.bits() == self.written_to(once, value),
        ensures
            twice == once,
    {
        before.lemma_bits_len();
        O::lemma_position_in_range(self.bit_index()@, T::representation().width());
        assert(twice.bits() =~= once.bits());
        twice.lemma_bits_injective(once);
    }
}

} // verus!
