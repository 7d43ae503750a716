//! Total ordering, indexing and counting over types with a finite domain.
//!
//! [`Enum`] gives a type's domain an ascending order: every well-formed
//! value has an ordinal below the domain's cardinality, and ordinals map
//! back to values exactly. Partial operations return `None` precisely where
//! the specification says no answer exists: an ordinal or count that would
//! not fit `usize`, a query past either end of the domain, or an index
//! outside it.

use vstd::prelude::*;

verus! {

use crate::generic::Generic;
use crate::genum::GEnum;

/// A type with a finite, totally ordered domain of values.
///
/// The mathematical model is given by four specification functions:
/// `spec_card` (the domain's size), `wf` (which values belong to the
/// domain), `spec_index` (a value's ordinal) and `value_at` (the value
/// holding an ordinal). The two laws state that `spec_index` and
/// `value_at` are exact inverses between the domain and `[0, spec_card)`.
pub trait Enum: Sized {
    /// The number of values in the domain.
    spec fn spec_card() -> nat;

    /// Whether this value belongs to the domain.
    spec fn wf(self) -> bool;

    /// This value's ordinal in the ascending order of the domain.
    spec fn spec_index(self) -> nat;

    /// The value whose ordinal is `i`, for `i` below the cardinality.
    spec fn value_at(i: nat) -> Self;

    /// Law: a well-formed value's ordinal lies below the cardinality, and
    /// mapping the ordinal back yields the value.
    proof fn lemma_index_bijective(self)
        requires
            self.wf(),
        ensures
            self.spec_index() < Self::spec_card(),
            Self::value_at(self.spec_index()) == self,
    ;

    /// Law: every ordinal below the cardinality holds a well-formed value,
    /// and that value's ordinal is the one it was taken from.
    proof fn lemma_value_at_wf(i: nat)
        requires
            i < Self::spec_card(),
        ensures
            Self::value_at(i).wf(),
            Self::value_at(i).spec_index() == i,
    ;

    /// The cardinality, or `None` where it exceeds `usize`.
    fn card() -> (r: Option<usize>)
        ensures
            match r {
                Some(c) => c == Self::spec_card(),
                None => Self::spec_card() > usize::MAX,
            },
    ;

    /// An owned copy of this value.
    fn own(&self) -> (r: Self)
        requires
            self.wf(),
        ensures
            r == *self,
    ;

    /// This value's ordinal, or `None` where it exceeds `usize`.
    fn to_index(&self) -> (r: Option<usize>)
        requires
            self.wf(),
        ensures
            match r {
                Some(i) => i == self.spec_index(),
                None => self.spec_index() > usize::MAX,
            },
    ;

    /// The value at ordinal `i`, or `None` where `i` is outside the domain.
    fn from_index(i: usize) -> (r: Option<Self>)
        ensures
            match r {
                Some(v) => i < Self::spec_card() && v == Self::value_at(i as nat),
                None => i >= Self::spec_card(),
            },
    ;

    /// The lowest value, or `None` on an empty domain.
    fn first() -> (r: Option<Self>)
        ensures
            match r {
                Some(v) => Self::spec_card() > 0 && v == Self::value_at(0),
                None => Self::spec_card() == 0,
            },
    ;

    /// The highest value, or `None` on an empty domain.
    fn last() -> (r: Option<Self>)
        ensures
            match r {
                Some(v) => Self::spec_card() > 0 && v == Self::value_at(
                    (Self::spec_card() - 1) as nat,
                ),
                None => Self::spec_card() == 0,
            },
    ;

    /// The value one ordinal lower, or `None` on the first value.
    fn prev(&self) -> (r: Option<Self>)
        requires
            self.wf(),
        ensures
            match r {
                Some(v) => self.spec_index() >= 1 && v == Self::value_at(
                    (self.spec_index() - 1) as nat,
                ),
                None => self.spec_index() == 0,
            },
    ;

    /// The value one ordinal higher, or `None` on the last value.
    fn succ(&self) -> (r: Option<Self>)
        requires
            self.wf(),
        ensures
            match r {
                Some(v) => self.spec_index() + 1 < Self::spec_card() && v == Self::value_at(
                    self.spec_index() + 1,
                ),
                None => self.spec_index() + 1 == Self::spec_card(),
            },
    ;

    /// How many values lie at or after this one: always at least one, and
    /// equal to the cardinality minus this value's ordinal. `None` where
    /// that count exceeds `usize`.
    fn count_from(&self) -> (r: Option<usize>)
        requires
            self.wf(),
        ensures
            match r {
                Some(c) => c == Self::spec_card() - self.spec_index(),
                None => Self::spec_card() - self.spec_index() > usize::MAX,
            },
    ;

    /// Every value at or after this one, in ascending order, visiting the
    /// structure of the domain once rather than once per element.
    fn values_from(&self) -> (r: Vec<Self>)
        requires
            self.wf(),
            Self::spec_card() - self.spec_index() <= usize::MAX,
        ensures
            r@.len() == Self::spec_card() - self.spec_index(),
            forall|j: int|
                0 <= j < r@.len() ==> r@[j] == Self::value_at((self.spec_index() + j) as nat),
    ;
}

/// Opting a [`Generic`] type into the enumeration algebra.
///
/// A type whose representation implements [`GEnum`] receives [`Enum`]
/// through a blanket implementation; the one obligation is building the
/// representation from a borrow.
pub trait GenericEnum: Generic where Self::Repr: GEnum {
    /// The representation of this value, built from a borrow of it.
    fn as_repr(&self) -> (r: Self::Repr)
        requires
            self.to_repr().wf(),
        ensures
            r == self.to_repr(),
    ;
}

impl<T: GenericEnum> Enum for T where T::Repr: GEnum {
    open spec fn spec_card() -> nat {
        <T::Repr as GEnum>::spec_card()
    }

    open spec fn wf(self) -> bool {
        self.to_repr().wf()
    }

    open spec fn spec_index(self) -> nat {
        self.to_repr().spec_index()
    }

    open spec fn value_at(i: nat) -> T {
        T::of_repr(<T::Repr as GEnum>::value_at(i))
    }

    proof fn lemma_index_bijective(self) {
        self.to_repr().lemma_index_bijective();
        self.lemma_encode_wf();
    }

    proof fn lemma_value_at_wf(i: nat) {
        <T::Repr as GEnum>::lemma_value_at_wf(i);
        let r = <T::Repr as GEnum>::value_at(i);
        r.lemma_wf_shape();
        T::lemma_decode_inverse(r);
    }

    fn card() -> (r: Option<usize>) {
        <T::Repr as GEnum>::card()
    }

    fn own(&self) -> (r: Self) {
        let repr = self.as_repr();
        proof {
            repr.lemma_wf_shape();
            self.lemma_encode_wf();
        }
        T::from_repr(repr)
    }

    fn to_index(&self) -> (r: Option<usize>) {
        let repr = self.as_repr();
        repr.to_index()
    }

    fn from_index(i: usize) -> (r: Option<Self>) {
        match <T::Repr as GEnum>::from_index(i) {
            Some(v) => {
                proof {
                    <T::Repr as GEnum>::lemma_value_at_wf(i as nat);
                    v.lemma_wf_shape();
                }
                Some(T::from_repr(v))
            },
            None => None,
        }
    }

    fn first() -> (r: Option<Self>) {
        match <T::Repr as GEnum>::first() {
            Some(v) => {
                proof {
                    <T::Repr as GEnum>::lemma_value_at_wf(0);
                    v.lemma_wf_shape();
                }
                Some(T::from_repr(v))
            },
            None => None,
        }
    }

    fn last() -> (r: Option<Self>) {
        match <T::Repr as GEnum>::last() {
            Some(v) => {
                proof {
                    <T::Repr as GEnum>::lemma_value_at_wf(
                        (<T::Repr as GEnum>::spec_card() - 1) as nat,
                    );
                    v.lemma_wf_shape();
                }
                Some(T::from_repr(v))
            },
            None => None,
        }
    }

    fn prev(&self) -> (r: Option<Self>) {
        let repr = self.as_repr();
        match repr.prev() {
            Some(p) => {
                proof {
                    repr.lemma_index_bijective();
                    <T::Repr as GEnum>::lemma_value_at_wf((repr.spec_index() - 1) as nat);
                    p.lemma_wf_shape();
                }
                Some(T::from_repr(p))
            },
            None => None,
        }
    }

    fn succ(&self) -> (r: Option<Self>) {
        let repr = self.as_repr();
        match repr.succ() {
            Some(s) => {
                proof {
                    <T::Repr as GEnum>::lemma_value_at_wf(repr.spec_index() + 1);
                    s.lemma_wf_shape();
                }
                Some(T::from_repr(s))
            },
            None => None,
        }
    }

    fn count_from(&self) -> (r: Option<usize>) {
        let repr = self.as_repr();
        repr.count_from()
    }

    fn values_from(&self) -> (r: Vec<Self>) {
        let repr = self.as_repr();
        let rv = repr.values_from();
        let ghost i0 = repr.spec_index();
        let mut out: Vec<T> = Vec::new();
        let mut k: usize = 0;
        while k < rv.len()
            invariant
                i0 == self.to_repr().spec_index(),
                rv@.len() == <T::Repr as GEnum>::spec_card() - i0,
                forall|j: int|
                    0 <= j < rv@.len() ==> rv@[j] == <T::Repr as GEnum>::value_at((i0 + j) as nat),
                k <= rv.len(),
                out@.len() == k,
                forall|j: int| 0 <= j < k ==> out@[j] == T::value_at((i0 + j) as nat),
            decreases rv@.len() - k,
        {
            proof {
                <T::Repr as GEnum>::lemma_value_at_wf((i0 + k) as nat);
                rv@[k as int].lemma_wf_shape();
            }
            let rk = rv[k].own();
            out.push(T::from_repr(rk));
            k += 1;
        }
        out
    }
}

/// Every value of the domain, in ascending order.
pub fn all_values<T: Enum>() -> (r: Vec<T>)
    requires
        T::spec_card() <= usize::MAX,
    ensures
        r@.len() == T::spec_card(),
        forall|j: int| 0 <= j < r@.len() ==> r@[j] == T::value_at(j as nat),
{
    match T::first() {
        None => Vec::new(),
        Some(v) => {
            proof {
                T::lemma_value_at_wf(0);
            }
            v.values_from()
        },
    }
}

} // verus!
