//! The value-level surface of the lifetime-erasure primitive.
//!
//! The primitive takes one reference and hands back a reference to
//! the same referent, of the same kind: at run time it is exactly the
//! identity, and that is what is proved here. What the primitive
//! additionally does — unbinding the result's lifetime from its
//! origin — is a type-level matter that needs an `unsafe`
//! reinterpretation of the reference and therefore lives outside the
//! verified library, with this same value-level contract. The
//! by-mutable-reference form lives there too, since a verified
//! function cannot return a mutable reference.

use vstd::prelude::*;

verus! {

/// Abstracts over the reference kinds the erasure primitive accepts;
/// erasing never changes the value handed in.
pub trait BorrowUnchecked: Sized {
    /// Hands back exactly the reference it was given.
    fn borrow_unchecked(self) -> (r: Self)
        ensures
            r == self,
    ;
}

impl<T> BorrowUnchecked for &T {
    fn borrow_unchecked(self) -> (r: Self)
        ensures
            r == self,
    {
        self
    }
}

/// The erasure primitive, seen from its callers: the reference comes
/// back unchanged.
pub fn borrow_unchecked<R: BorrowUnchecked>(reference: R) -> (r: R)
    ensures
        r == reference,
{
    reference.borrow_unchecked()
}

/// The same surface one layer down, as the underlying operation is
/// named where it stands alone.
pub trait Reference: Sized {
    /// Hands back exactly the reference it was given.
    fn unbounded(self) -> (r: Self)
        ensures
            r == self,
    ;
}

impl<T> Reference for &T {
    fn unbounded(self) -> (r: Self)
        ensures
            r == self,
    {
        self
    }
}

/// The underlying operation, seen from its callers: the reference
/// comes back unchanged.
pub fn reference<R: Reference>(value: R) -> (r: R)
    ensures
        r == value,
{
    value.unbounded()
}

} // verus!
