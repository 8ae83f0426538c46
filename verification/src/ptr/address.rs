//! Validated addresses of memory elements.

use vstd::prelude::*;
use vstd::layout::{align_nonzero, align_of};
use vstd::std_specs::cmp::PartialEqSpecImpl;
use vstd::std_specs::convert::{FromSpecImpl, TryFromSpecImpl};
use core::marker::PhantomData;
use crate::mutability::{Const, Mut, Mutability};
use crate::store::BitStore;

verus! {

/// Why a number is not the address of an element.
#[derive(Clone, Copy, Debug, PartialEq, Eq, Structural)]
pub enum AddressError {
    /// The address is null.
    Null,
    /// The address, held here, is not a multiple of the element type's
    /// alignment.
    Misaligned(usize),
}

/// Whether `value` can be the address of an element of type `T`: it is not
/// null, and it is a multiple of the alignment of `T`.
pub open spec fn valid_address<T>(value: nat) -> bool {
    value != 0 && value % align_of::<T>() == 0
}

/// The address of a memory element of type `T`, tagged with the access `M`
/// that it grants.
///
/// An address is never null and always aligned for `T`.
#[derive(Debug)]
pub struct Address<T: BitStore, M: Mutability> {
    addr: usize,
    _ty: PhantomData<T>,
    _mt: PhantomData<M>,
}

impl<T: BitStore, M: Mutability> View for Address<T, M> {
    type V = nat;

    closed spec fn view(&self) -> nat {
        self.addr as nat
    }
}

impl<T: BitStore, M: Mutability> Clone for Address<T, M> {
    fn clone(&self) -> (ret: Self)
        ensures
            ret == *self,
    {
        *self
    }
}

impl<T: BitStore, M: Mutability> Copy for Address<T, M> {

}

impl<T: BitStore, M: Mutability> PartialEq for Address<T, M> {
    /// Whether the two addresses have the same numeric value.
    fn eq(&self, other: &Self) -> (ret: bool)
        ensures
            ret == (self@ == other@),
    {
        self.addr == other.addr
    }
}

impl<T: BitStore, M: Mutability> PartialEqSpecImpl for Address<T, M> {
    open spec fn obeys_eq_spec() -> bool {
        true
    }

    open spec fn eq_spec(&self, other: &Self) -> bool {
        self@ == other@
    }
}

impl<T: BitStore, M: Mutability> Eq for Address<T, M> {

}

impl<T: BitStore, M: Mutability> Address<T, M> {
    /// Whether the address is not null and aligned for `T`.
    #[verifier::type_invariant]
    pub open spec fn wf(self) -> bool {
        valid_address::<T>(self@)
    }

    /// The address with the given numeric value.
    pub closed spec fn at(value: usize) -> Self {
        Address { addr: value, _ty: PhantomData, _mt: PhantomData }
    }

    /// The numeric value of [`at`](Address::at) is the one given.
    pub broadcast proof fn lemma_at_view(value: usize)
        ensures
            (#[trigger] Self::at(value))@ == value,
    {
    }

    /// What checking `value` as the address of an element of type `T` gives:
    /// the address, or why it is none.
    pub open spec fn checked(value: usize) -> Result<Self, AddressError> {
        if value == 0 {
            Err(AddressError::Null)
        } else if value as nat % align_of::<T>() != 0 {
            Err(AddressError::Misaligned(value))
        } else {
            Ok(Self::at(value))
        }
    }

    /// Two addresses with the same numeric value are the same.
    pub proof fn lemma_view_injective(self, other: Self)
        requires
            self@ == other@,
        ensures
            self == other,
    {
    }

    /// Checking a number gives an address exactly when the number is valid
    /// for `T`; the address then has that number as its value. A null number
    /// is refused as null, any other invalid number as misaligned.
    pub proof fn lemma_checked(value: usize)
        ensures
            Self::checked(value) is Ok <==> valid_address::<T>(value as nat),
            Self::checked(value) is Ok ==> Self::checked(value).unwrap()@ == value,
            value == 0 ==> Self::checked(value) == Err::<Self, AddressError>(AddressError::Null),
            value != 0 && !valid_address::<T>(value as nat) ==> Self::checked(value) == Err::<
                Self,
                AddressError,
            >(AddressError::Misaligned(value)),
    {
    }

    /// The address `value`, after checking that it is not null and that it is
    /// aligned for `T`.
    pub fn new(value: usize) -> (ret: Result<Self, AddressError>)
        ensures
            ret == Self::checked(value),
    {
        broadcast use align_nonzero;

        if value == 0 {
            Err(AddressError::Null)
        } else if value % core::mem::align_of::<T>() != 0 {
            Err(AddressError::Misaligned(value))
        } else {
            Ok(Address { addr: value, _ty: PhantomData, _mt: PhantomData })
        }
    }

    /// The address `value`, without any check.
    pub fn new_unchecked(value: usize) -> (ret: Self)
        requires
            valid_address::<T>(value as nat),
        ensures
            ret == Self::at(value),
            ret.wf(),
    {
        Address { addr: value, _ty: PhantomData, _mt: PhantomData }
    }

    /// An address that is valid for `T` and stands for no element: the
    /// alignment of `T`.
    pub fn dangling() -> (ret: Self)
        ensures
            ret@ == align_of::<T>(),
    {
        broadcast use align_nonzero;

        Address { addr: core::mem::align_of::<T>(), _ty: PhantomData, _mt: PhantomData }
    }

    /// The numeric value of the address.
    pub fn value(self) -> (v: usize)
        ensures
            v == self@,
            valid_address::<T>(v as nat),
    {
        proof {
            use_type_invariant(&self);
        }
        self.addr
    }
}

/// The address at which the element behind `elem` lies.
///
/// Trusted: the body asks `core::ptr::from_ref` for the pointer to the
/// referent of `elem` and takes its address as a number. The contract claims
/// what the documentation of references promises of every reference: it is
/// not null, and it is aligned for its type. The number itself differs from
/// run to run, and nothing more is said of it.
#[verifier::external_body]
fn location_of<T: BitStore>(elem: &T) -> (addr: usize)
    ensures
        valid_address::<T>(addr as nat),
{
    core::ptr::from_ref(elem) as usize
}

impl<'a, T: BitStore> From<&'a T> for Address<T, Const> {
    /// The address of the element behind `src`: some address that is valid
    /// for `T`.
    fn from(src: &'a T) -> (ret: Self)
        ensures
            ret.wf(),
    {
        Address::new_unchecked(location_of(src))
    }
}

impl<'a, T: BitStore> FromSpecImpl<&'a T> for Address<T, Const> {
    open spec fn obeys_from_spec() -> bool {
        false
    }

    open spec fn from_spec(src: &'a T) -> Self {
        arbitrary()
    }
}

impl<'a, T: BitStore> From<&'a mut T> for Address<T, Mut> {
    /// The address of the element behind `src`: some address that is valid
    /// for `T`.
    fn from(src: &'a mut T) -> (ret: Self)
        ensures
            ret.wf(),
    {
        Address::new_unchecked(location_of(src))
    }
}

impl<'a, T: BitStore> FromSpecImpl<&'a mut T> for Address<T, Mut> {
    open spec fn obeys_from_spec() -> bool {
        false
    }

    open spec fn from_spec(src: &'a mut T) -> Self {
        arbitrary()
    }
}

impl<T: BitStore, M: Mutability> TryFrom<usize> for Address<T, M> {
    type Error = AddressError;

    /// The address `value`, after checking that it is not null and that it is
    /// aligned for `T`.
    fn try_from(value: usize) -> (ret: Result<Self, AddressError>)
        ensures
            ret == Self::checked(value),
    {
        Address::new(value)
    }
}

impl<T: BitStore, M: Mutability> TryFromSpecImpl<usize> for Address<T, M> {
    open spec fn obeys_try_from_spec() -> bool {
        true
    }

    open spec fn try_from_spec(value: usize) -> Result<Self, AddressError> {
        Self::checked(value)
    }
}

} // verus!
