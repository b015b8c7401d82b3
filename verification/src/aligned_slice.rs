//! Aligned slice views of aligned arrays.
use vstd::prelude::*;

use aligned::Aligned;

verus! {

#[verifier::external_type_specification]
#[verifier::external_body]
#[verifier::reject_recursive_types(A)]
#[verifier::reject_recursive_types(T)]
pub struct ExAligned<A, T: ?Sized>(Aligned<A, T>);

/// Views an `aligned::Aligned` array as an aligned slice of the same
/// elements. The body is the unsizing coercion of `aligned::Aligned` that
/// the `aligned` crate's own tests use (`&Aligned<A, [T; N]>` to
/// `&Aligned<A, [T]>`). `Aligned` is declared opaque here, so no clause
/// speaks of the result's elements or address.
#[verifier::external_body]
fn unsize_aligned<A, E, const N: usize>(array: &Aligned<A, [E; N]>) -> &Aligned<A, [E]> {
    array
}

/// The mutable counterpart of `unsize_aligned`: the same coercion on a
/// mutable borrow. Nothing is claimed of the result.
#[verifier::external_body]
fn unsize_aligned_mut<A, E, const N: usize>(
    array: &mut Aligned<A, [E; N]>,
) -> &mut Aligned<A, [E]> {
    array
}

/// Create an aligned slice from an aligned array
pub trait AsAlignedSlice {
    /// Slice element
    type Element;
    /// Slice alignment (an `aligned::Alignment` marker such as `aligned::A4`;
    /// generic callers that dereference the slice add that bound themselves)
    type Alignment;

    /// Create the slice
    fn as_aligned_slice(&self) -> &Aligned<Self::Alignment, [Self::Element]>;
}

/// Create an aligned slice from an aligned array
pub trait AsMutAlignedSlice {
    /// Slice element
    type Element;
    /// Slice alignment (an `aligned::Alignment` marker such as `aligned::A4`;
    /// generic callers that dereference the slice add that bound themselves)
    type Alignment;

    /// Create the slice
    fn as_mut_aligned_slice(&mut self) -> &mut Aligned<Self::Alignment, [Self::Element]>;
}

impl<A, E, const N: usize> AsAlignedSlice for Aligned<A, [E; N]> {
    type Element = E;
    type Alignment = A;

    fn as_aligned_slice(&self) -> &Aligned<A, [E]> {
        unsize_aligned(self)
    }
}

impl<A, E, const N: usize> AsMutAlignedSlice for Aligned<A, [E; N]> {
    type Element = E;
    type Alignment = A;

    fn as_mut_aligned_slice(&mut self) -> &mut Aligned<A, [E]> {
        unsize_aligned_mut(self)
    }
}

} // verus!
