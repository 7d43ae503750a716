//! The four primitive shapes and the structural isomorphism.
//!
//! A composite type's structure is a sum of products: a right-leaning
//! chain of [`Sum`] links, one per variant, ending in [`Zero`], where each
//! variant holds a right-leaning chain of [`Product`] links, one per field,
//! ending in [`One`]. A type that implements [`Generic`] can be converted
//! to and from such a representation, and the conversion is a bijection.

use vstd::prelude::*;

verus! {

/// The empty sum: the shape with no variants. Executable code can never
/// hold one of these on a path it actually reaches; the private field keeps
/// callers from building one, and [`Repr::wf_shape`] is `false` for it.
#[derive(Clone, Copy, Debug, PartialEq, Eq)]
pub struct Zero {
    no_value: (),
}

/// The unit product: the shape with exactly one value and no fields.
#[derive(Clone, Copy, Debug, PartialEq, Eq)]
pub struct One;

/// A tagged sum: either this variant's product, or one of the remaining
/// variants, encoded in turn.
#[derive(Clone, Copy, Debug, PartialEq, Eq)]
pub enum Sum<T, R> {
    This(T),
    Next(R),
}

/// A cons cell pairing this field's value with the remaining fields,
/// encoded in turn.
#[derive(Clone, Copy, Debug, PartialEq, Eq)]
pub struct Product<T, R>(pub T, pub R);

/// A shape that can stand as a representation: one of the four primitives,
/// composed according to the grammar above.
pub trait Repr: Sized {
    /// Whether executable code can hold this value: every branch that would
    /// need a value of the empty sum is excluded.
    spec fn wf_shape(self) -> bool;
}

impl Repr for Zero {
    open spec fn wf_shape(self) -> bool {
        false
    }
}

impl Repr for One {
    open spec fn wf_shape(self) -> bool {
        true
    }
}

impl<T: Repr, R: Repr> Repr for Sum<T, R> {
    open spec fn wf_shape(self) -> bool {
        match self {
            Sum::This(x) => x.wf_shape(),
            Sum::Next(y) => y.wf_shape(),
        }
    }
}

impl<T, R: Repr> Repr for Product<T, R> {
    open spec fn wf_shape(self) -> bool {
        self.1.wf_shape()
    }
}

/// The structural isomorphism between a type and its representation.
///
/// Encoding ([`Generic::into_repr`]) and decoding ([`Generic::from_repr`])
/// are exact inverses: the two laws [`Generic::lemma_encode_wf`] and
/// [`Generic::lemma_decode_inverse`] state the bijection, and every
/// implementation proves them. A shape for which `wf_shape` is false is
/// not a representation of any value, and decoding demands `wf_shape`.
pub trait Generic: Sized {
    /// The representation: a sum of products describing this type's
    /// variants and fields, in declaration order.
    type Repr: Repr;

    /// What this value encodes to.
    spec fn to_repr(self) -> Self::Repr;

    /// The value that a representation decodes to.
    spec fn of_repr(r: Self::Repr) -> Self;

    /// Law: encoding yields a buildable shape, and decoding it gives the
    /// original value back (decode after encode is the identity).
    proof fn lemma_encode_wf(self)
        ensures
            self.to_repr().wf_shape(),
            Self::of_repr(self.to_repr()) == self,
    ;

    /// Law: encoding the value a buildable shape decodes to gives the same
    /// shape back (encode after decode is the identity).
    proof fn lemma_decode_inverse(r: Self::Repr)
        requires
            r.wf_shape(),
        ensures
            Self::of_repr(r).to_repr() == r,
    ;

    /// Turn a value into its representation.
    fn into_repr(self) -> (r: Self::Repr)
        ensures
            r == self.to_repr(),
    ;

    /// Turn a representation back into the value it encodes.
    fn from_repr(r: Self::Repr) -> (res: Self)
        requires
            r.wf_shape(),
        ensures
            res == Self::of_repr(r),
    ;
}

/// Law: decoding a value's encoding gives the value back, and encoding
/// that again gives the same representation, so any projection of the
/// round-tripped value agrees with the original's.
pub proof fn lemma_round_trip<T: Generic>(x: T)
    ensures
        T::of_repr(x.to_repr()) == x,
        T::of_repr(x.to_repr()).to_repr() == x.to_repr(),
{
    x.lemma_encode_wf();
    T::lemma_decode_inverse(x.to_repr());
}

} // verus!
