//! Type-level tags that say whether a pointer may be written through.

use vstd::prelude::*;

verus! {

/// A tag for the access that a pointer grants to its referent.
///
/// The tag is part of the pointer's type. The operations that write are
/// defined for pointers tagged [`Mut`] and for no others, so that a write
/// through a pointer tagged [`Const`] does not compile.
pub trait Mutability: Sized {

}

/// Read-only access.
#[derive(Clone, Copy, Debug)]
pub struct Const;

/// Read and write access.
#[derive(Clone, Copy, Debug)]
pub struct Mut;

impl Mutability for Const {

}

impl Mutability for Mut {

}

} // verus!
