//! Conversions available through the structural isomorphism alone.

use vstd::prelude::*;

verus! {

use crate::generic::{Generic, One, Product, Repr, Sum, Zero};

/// Builds a value of any single-variant, single-field type from the field.
pub fn singleton<T, U: Generic<Repr = Sum<Product<T, One>, Zero>>>(x: T) -> (r: U)
    ensures
        r == U::of_repr(Sum::This(Product(x, One))),
{
    U::from_repr(Sum::This(Product(x, One)))
}

/// Converts between two types that share one representation. The result
/// is the decoding, in the target type, of the argument's encoding.
pub fn cast<T: Generic, U: Generic<Repr = T::Repr>>(x: T) -> (r: U)
    ensures
        r == U::of_repr(x.to_repr()),
{
    proof {
        x.lemma_encode_wf();
    }
    U::from_repr(x.into_repr())
}

/// The number of variants a representation declares: its sum links.
pub trait VariantCount: Repr {
    /// The number of variants, counted over the shape.
    spec fn spec_variants() -> nat;

    /// The variant count, saturating at `u32::MAX`.
    fn variants() -> (r: u32)
        ensures
            Self::spec_variants() <= u32::MAX ==> r == Self::spec_variants(),
            r <= Self::spec_variants(),
    ;
}

impl VariantCount for Zero {
    open spec fn spec_variants() -> nat {
        0
    }

    fn variants() -> (r: u32) {
        0
    }
}

impl<T: Repr, R: VariantCount> VariantCount for Sum<T, R> {
    open spec fn spec_variants() -> nat {
        1 + R::spec_variants()
    }

    fn variants() -> (r: u32) {
        let c = R::variants();
        if c == u32::MAX {
            c
        } else {
            c + 1
        }
    }
}

/// The number of variants of a type, read off its representation.
pub fn variant_count<T: Generic>() -> (r: u32) where T::Repr: VariantCount
    ensures
        <T::Repr as VariantCount>::spec_variants() <= u32::MAX ==> r == <T::Repr as VariantCount>::spec_variants(),
        r <= <T::Repr as VariantCount>::spec_variants(),
{
    <T::Repr as VariantCount>::variants()
}

} // verus!
