//! The enumeration algebra over the four primitive shapes.
//!
//! [`GEnum`] is [`Enum`](crate::enumeration::Enum) for representations:
//! it is implemented once per shape, and the recursion over the shape
//! grammar carries the cardinality arithmetic, the mixed-radix index
//! mapping, the ordering primitives and the bulk traversal. A type whose
//! representation implements `GEnum` gets `Enum` for free through
//! [`GenericEnum`](crate::enumeration::GenericEnum).
//!
//! Ordinals are assigned in declaration order: within a sum, all ordinals
//! of the first variant precede the rest; within a product, the ordinal
//! varies fastest in the rightmost field, a mixed-radix encoding with each
//! field's cardinality as its radix.

use vstd::prelude::*;

verus! {

use crate::enumeration::Enum;
use crate::generic::{One, Product, Repr, Sum, Zero};

/// The enumeration algebra of a shape: the same contract as
/// [`Enum`](crate::enumeration::Enum), plus the guarantee that well-formed
/// values are buildable shapes.
pub trait GEnum: Repr {
    /// The number of values of this shape.
    spec fn spec_card() -> nat;

    /// Whether this value belongs to the domain.
    spec fn wf(self) -> bool;

    /// This value's ordinal in the ascending order of the domain.
    spec fn spec_index(self) -> nat;

    /// The value whose ordinal is `i`, for `i` below the cardinality.
    spec fn value_at(i: nat) -> Self;

    /// Law: a well-formed value is a buildable shape.
    proof fn lemma_wf_shape(self)
        requires
            self.wf(),
        ensures
            self.wf_shape(),
    ;

    /// Law: a well-formed value's ordinal lies below the cardinality, and
    /// mapping the ordinal back yields the value.
    proof fn lemma_index_bijective(self)
        requires
            self.wf(),
        ensures
            self.spec_index() < Self::spec_card(),
            Self::value_at(self.spec_index()) == self,
    ;

    /// Law: every ordinal below the cardinality holds a well-formed value,
    /// and that value's ordinal is the one it was taken from.
    proof fn lemma_value_at_wf(i: nat)
        requires
            i < Self::spec_card(),
        ensures
            Self::value_at(i).wf(),
            Self::value_at(i).spec_index() == i,
    ;

    /// The cardinality, or `None` where it exceeds `usize`.
    fn card() -> (r: Option<usize>)
        ensures
            match r {
                Some(c) => c == Self::spec_card(),
                None => Self::spec_card() > usize::MAX,
            },
    ;

    /// An owned copy of this value.
    fn own(&self) -> (r: Self)
        requires
            self.wf(),
        ensures
            r == *self,
    ;

    /// This value's ordinal, or `None` where it exceeds `usize`.
    fn to_index(&self) -> (r: Option<usize>)
        requires
            self.wf(),
        ensures
            match r {
                Some(i) => i == self.spec_index(),
                None => self.spec_index() > usize::MAX,
            },
    ;

    /// The value at ordinal `i`, or `None` where `i` is outside the domain.
    fn from_index(i: usize) -> (r: Option<Self>)
        ensures
            match r {
                Some(v) => i < Self::spec_card() && v == Self::value_at(i as nat),
                None => i >= Self::spec_card(),
            },
    ;

    /// The lowest value, or `None` on an empty domain.
    fn first() -> (r: Option<Self>)
        ensures
            match r {
                Some(v) => Self::spec_card() > 0 && v == Self::value_at(0),
                None => Self::spec_card() == 0,
            },
    ;

    /// The highest value, or `None` on an empty domain.
    fn last() -> (r: Option<Self>)
        ensures
            match r {
                Some(v) => Self::spec_card() > 0 && v == Self::value_at(
                    (Self::spec_card() - 1) as nat,
                ),
                None => Self::spec_card() == 0,
            },
    ;

    /// The value one ordinal lower, or `None` on the first value.
    fn prev(&self) -> (r: Option<Self>)
        requires
            self.wf(),
        ensures
            match r {
                Some(v) => self.spec_index() >= 1 && v == Self::value_at(
                    (self.spec_index() - 1) as nat,
                ),
                None => self.spec_index() == 0,
            },
    ;

    /// The value one ordinal higher, or `None` on the last value.
    fn succ(&self) -> (r: Option<Self>)
        requires
            self.wf(),
        ensures
            match r {
                Some(v) => self.spec_index() + 1 < Self::spec_card() && v == Self::value_at(
                    self.spec_index() + 1,
                ),
                None => self.spec_index() + 1 == Self::spec_card(),
            },
    ;

    /// How many values lie at or after this one, the value itself included.
    /// `None` where that count exceeds `usize`.
    fn count_from(&self) -> (r: Option<usize>)
        requires
            self.wf(),
        ensures
            match r {
                Some(c) => c == Self::spec_card() - self.spec_index(),
                None => Self::spec_card() - self.spec_index() > usize::MAX,
            },
    ;

    /// Every value at or after this one, in ascending order, visiting the
    /// structure of the domain once rather than once per element.
    fn values_from(&self) -> (r: Vec<Self>)
        requires
            self.wf(),
            Self::spec_card() - self.spec_index() <= usize::MAX,
        ensures
            r@.len() == Self::spec_card() - self.spec_index(),
            forall|j: int|
                0 <= j < r@.len() ==> r@[j] == Self::value_at((self.spec_index() + j) as nat),
    ;
}

/// Every value of a shape's domain, in ascending order.
pub fn g_all_values<T: GEnum>() -> (r: Vec<T>)
    requires
        T::spec_card() <= usize::MAX,
    ensures
        r@.len() == T::spec_card(),
        forall|j: int| 0 <= j < r@.len() ==> r@[j] == T::value_at(j as nat),
{
    match T::first() {
        None => Vec::new(),
        Some(v) => {
            proof {
                T::lemma_value_at_wf(0);
            }
            v.values_from()
        },
    }
}

impl GEnum for Zero {
    open spec fn spec_card() -> nat {
        0
    }

    open spec fn wf(self) -> bool {
        false
    }

    open spec fn spec_index(self) -> nat {
        0
    }

    open spec fn value_at(i: nat) -> Zero {
        arbitrary()
    }

    proof fn lemma_wf_shape(self) {
    }

    proof fn lemma_index_bijective(self) {
    }

    proof fn lemma_value_at_wf(i: nat) {
    }

    fn card() -> (r: Option<usize>) {
        Some(0)
    }

    fn own(&self) -> (r: Self) {
        unreached()
    }

    fn to_index(&self) -> (r: Option<usize>) {
        unreached()
    }

    fn from_index(i: usize) -> (r: Option<Self>) {
        None
    }

    fn first() -> (r: Option<Self>) {
        None
    }

    fn last() -> (r: Option<Self>) {
        None
    }

    fn prev(&self) -> (r: Option<Self>) {
        unreached()
    }

    fn succ(&self) -> (r: Option<Self>) {
        unreached()
    }

    fn count_from(&self) -> (r: Option<usize>) {
        unreached()
    }

    fn values_from(&self) -> (r: Vec<Self>) {
        unreached()
    }
}

impl GEnum for One {
    open spec fn spec_card() -> nat {
        1
    }

    open spec fn wf(self) -> bool {
        true
    }

    open spec fn spec_index(self) -> nat {
        0
    }

    open spec fn value_at(i: nat) -> One {
        One
    }

    proof fn lemma_wf_shape(self) {
    }

    proof fn lemma_index_bijective(self) {
    }

    proof fn lemma_value_at_wf(i: nat) {
    }

    fn card() -> (r: Option<usize>) {
        Some(1)
    }

    fn own(&self) -> (r: Self) {
        One
    }

    fn to_index(&self) -> (r: Option<usize>) {
        Some(0)
    }

    fn from_index(i: usize) -> (r: Option<Self>) {
        if i == 0 {
            Some(One)
        } else {
            None
        }
    }

    fn first() -> (r: Option<Self>) {
        Some(One)
    }

    fn last() -> (r: Option<Self>) {
        Some(One)
    }

    fn prev(&self) -> (r: Option<Self>) {
        None
    }

    fn succ(&self) -> (r: Option<Self>) {
        None
    }

    fn count_from(&self) -> (r: Option<usize>) {
        Some(1)
    }

    fn values_from(&self) -> (r: Vec<Self>) {
        let mut out: Vec<One> = Vec::new();
        out.push(One);
        out
    }
}

impl<T: GEnum, R: GEnum> GEnum for Sum<T, R> {
    open spec fn spec_card() -> nat {
        T::spec_card() + R::spec_card()
    }

    open spec fn wf(self) -> bool {
        match self {
            Sum::This(x) => x.wf(),
            Sum::Next(y) => y.wf(),
        }
    }

    open spec fn spec_index(self) -> nat {
        match self {
            Sum::This(x) => x.spec_index(),
            Sum::Next(y) => T::spec_card() + y.spec_index(),
        }
    }

    open spec fn value_at(i: nat) -> Sum<T, R> {
        if i < T::spec_card() {
            Sum::This(T::value_at(i))
        } else {
            Sum::Next(R::value_at((i - T::spec_card()) as nat))
        }
    }

    proof fn lemma_wf_shape(self) {
        match self {
            Sum::This(x) => x.lemma_wf_shape(),
            Sum::Next(y) => y.lemma_wf_shape(),
        }
    }

    proof fn lemma_index_bijective(self) {
        match self {
            Sum::This(x) => x.lemma_index_bijective(),
            Sum::Next(y) => y.lemma_index_bijective(),
        }
    }

    proof fn lemma_value_at_wf(i: nat) {
        if i < T::spec_card() {
            T::lemma_value_at_wf(i);
        } else {
            R::lemma_value_at_wf((i - T::spec_card()) as nat);
        }
    }

    fn card() -> (r: Option<usize>) {
        match (T::card(), R::card()) {
            (Some(x), Some(y)) => x.checked_add(y),
            _ => None,
        }
    }

    fn own(&self) -> (r: Self) {
        match self {
            Sum::This(x) => Sum::This(x.own()),
            Sum::Next(y) => Sum::Next(y.own()),
        }
    }

    fn to_index(&self) -> (r: Option<usize>) {
        match self {
            Sum::This(x) => x.to_index(),
            Sum::Next(y) => match (T::card(), y.to_index()) {
                (Some(c), Some(i)) => c.checked_add(i),
                _ => None,
            },
        }
    }

    fn from_index(i: usize) -> (r: Option<Self>) {
        match T::card() {
            Some(c) => {
                if i >= c {
                    match R::from_index(i - c) {
                        Some(v) => Some(Sum::Next(v)),
                        None => None,
                    }
                } else {
                    match T::from_index(i) {
                        Some(v) => Some(Sum::This(v)),
                        None => None,
                    }
                }
            },
            None => match T::from_index(i) {
                Some(v) => Some(Sum::This(v)),
                None => None,
            },
        }
    }

    fn first() -> (r: Option<Self>) {
        match T::first() {
            Some(v) => Some(Sum::This(v)),
            None => match R::first() {
                Some(v) => Some(Sum::Next(v)),
                None => None,
            },
        }
    }

    fn last() -> (r: Option<Self>) {
        match R::last() {
            Some(v) => Some(Sum::Next(v)),
            None => match T::last() {
                Some(v) => Some(Sum::This(v)),
                None => None,
            },
        }
    }

    fn prev(&self) -> (r: Option<Self>) {
        match self {
            Sum::This(x) => {
                proof {
                    x.lemma_index_bijective();
                }
                match x.prev() {
                    Some(p) => Some(Sum::This(p)),
                    None => None,
                }
            },
            Sum::Next(y) => {
                proof {
                    y.lemma_index_bijective();
                }
                match y.prev() {
                    Some(p) => Some(Sum::Next(p)),
                    None => match T::last() {
                        Some(l) => Some(Sum::This(l)),
                        None => None,
                    },
                }
            },
        }
    }

    fn succ(&self) -> (r: Option<Self>) {
        match self {
            Sum::Next(y) => match y.succ() {
                Some(s) => Some(Sum::Next(s)),
                None => None,
            },
            Sum::This(x) => match x.succ() {
                Some(s) => Some(Sum::This(s)),
                None => match R::first() {
                    Some(f) => Some(Sum::Next(f)),
                    None => None,
                },
            },
        }
    }

    fn count_from(&self) -> (r: Option<usize>) {
        match self {
            Sum::This(x) => match (x.count_from(), R::card()) {
                (Some(c), Some(rc)) => c.checked_add(rc),
                _ => None,
            },
            Sum::Next(y) => y.count_from(),
        }
    }

    fn values_from(&self) -> (r: Vec<Self>) {
        match self {
            Sum::Next(y) => {
                let rv = y.values_from();
                let mut out: Vec<Sum<T, R>> = Vec::new();
                let mut k: usize = 0;
                while k < rv.len()
                    invariant
                        *self == Sum::<T, R>::Next(*y),
                        y.wf(),
                        rv@.len() == R::spec_card() - y.spec_index(),
                        forall|j: int|
                            0 <= j < rv@.len() ==> rv@[j] == R::value_at(
                                (y.spec_index() + j) as nat,
                            ),
                        k <= rv.len(),
                        out@.len() == k,
                        forall|j: int|
                            0 <= j < k ==> out@[j] == Self::value_at(
                                (self.spec_index() + j) as nat,
                            ),
                    decreases rv@.len() - k,
                {
                    proof {
                        R::lemma_value_at_wf((y.spec_index() + k) as nat);
                    }
                    out.push(Sum::Next(rv[k].own()));
                    k += 1;
                }
                out
            },
            Sum::This(x) => {
                let tv = x.values_from();
                let mut out: Vec<Sum<T, R>> = Vec::new();
                let mut k: usize = 0;
                while k < tv.len()
                    invariant
                        *self == Sum::<T, R>::This(*x),
                        x.wf(),
                        tv@.len() == T::spec_card() - x.spec_index(),
                        forall|j: int|
                            0 <= j < tv@.len() ==> tv@[j] == T::value_at(
                                (x.spec_index() + j) as nat,
                            ),
                        k <= tv.len(),
                        out@.len() == k,
                        forall|j: int|
                            0 <= j < k ==> out@[j] == Self::value_at(
                                (self.spec_index() + j) as nat,
                            ),
                    decreases tv@.len() - k,
                {
                    proof {
                        T::lemma_value_at_wf((x.spec_index() + k) as nat);
                    }
                    out.push(Sum::This(tv[k].own()));
                    k += 1;
                }
                let rv = g_all_values::<R>();
                let mut m: usize = 0;
                while m < rv.len()
                    invariant
                        *self == Sum::<T, R>::This(*x),
                        x.wf(),
                        tv@.len() == T::spec_card() - x.spec_index(),
                        rv@.len() == R::spec_card(),
                        forall|j: int| 0 <= j < rv@.len() ==> rv@[j] == R::value_at(j as nat),
                        m <= rv.len(),
                        out@.len() == tv@.len() + m,
                        forall|j: int|
                            0 <= j < out@.len() ==> out@[j] == Self::value_at(
                                (self.spec_index() + j) as nat,
                            ),
                    decreases rv@.len() - m,
                {
                    proof {
                        R::lemma_value_at_wf(m as nat);
                    }
                    out.push(Sum::Next(rv[m].own()));
                    m += 1;
                }
                out
            },
        }
    }
}

/// Law: a sum's cardinality is the sum of its branches' cardinalities.
/// The executable `card` reports it exactly whenever it fits `usize`, and
/// reports the overflow otherwise, never a wrapped count.
pub proof fn lemma_sum_cardinality<T: GEnum, R: GEnum>()
    ensures
        Sum::<T, R>::spec_card() == T::spec_card() + R::spec_card(),
{
}

/// Law: a product's cardinality is the product of its components'
/// cardinalities, with the same exact-or-reported-overflow guarantee.
pub proof fn lemma_product_cardinality<T: Enum, R: GEnum>()
    ensures
        Product::<T, R>::spec_card() == T::spec_card() * R::spec_card(),
{
}

/// A mixed-radix digit pair splits uniquely: `q` and `r` with `r < c` are
/// recovered from `q * c + r` by division and remainder.
proof fn lemma_radix_split(q: nat, r: nat, c: nat)
    requires
        r < c,
    ensures
        ((q * c + r) as int) / (c as int) == q as int,
        ((q * c + r) as int) % (c as int) == r as int,
{
    vstd::arithmetic::div_mod::lemma_fundamental_div_mod_converse(
        (q * c + r) as int,
        c as int,
        q as int,
        r as int,
    );
}

/// The index of a product value lies below the product of the cardinalities.
proof fn lemma_radix_bound(q: nat, r: nat, cq: nat, c: nat)
    requires
        q < cq,
        r < c,
    ensures
        q * c + r < cq * c,
{
    assert(q * c + r < cq * c) by (nonlinear_arith)
        requires
            q < cq,
            r < c,
    ;
}

impl<T: Enum, R: GEnum> GEnum for Product<T, R> {
    open spec fn spec_card() -> nat {
        T::spec_card() * R::spec_card()
    }

    open spec fn wf(self) -> bool {
        self.0.wf() && self.1.wf()
    }

    open spec fn spec_index(self) -> nat {
        self.0.spec_index() * R::spec_card() + self.1.spec_index()
    }

    open spec fn value_at(i: nat) -> Product<T, R> {
        Product(T::value_at(i / R::spec_card()), R::value_at(i % R::spec_card()))
    }

    proof fn lemma_wf_shape(self) {
        self.1.lemma_wf_shape();
    }

    proof fn lemma_index_bijective(self) {
        self.0.lemma_index_bijective();
        self.1.lemma_index_bijective();
        lemma_radix_bound(
            self.0.spec_index(),
            self.1.spec_index(),
            T::spec_card(),
            R::spec_card(),
        );
        lemma_radix_split(self.0.spec_index(), self.1.spec_index(), R::spec_card());
    }

    proof fn lemma_value_at_wf(i: nat) {
        let ct = T::spec_card();
        let cr = R::spec_card();
        assert(cr >= 1 && ct >= 1) by (nonlinear_arith)
            requires
                i < ct * cr,
        ;
        vstd::arithmetic::div_mod::lemma_fundamental_div_mod(i as int, cr as int);
        vstd::arithmetic::div_mod::lemma_mod_bound(i as int, cr as int);
        assert((i as int) / (cr as int) < ct as int) by (nonlinear_arith)
            requires
                i < ct * cr,
                cr >= 1,
                i == ((i as int) / (cr as int)) * cr + (i as int) % (cr as int),
                0 <= (i as int) % (cr as int) < cr,
        ;
        T::lemma_value_at_wf(i / cr);
        R::lemma_value_at_wf(i % cr);
        lemma_radix_split(i / cr, i % cr, cr);
    }

    fn card() -> (r: Option<usize>) {
        match R::card() {
            Some(0) => {
                proof {
                    vstd::arithmetic::mul::lemma_mul_basics(T::spec_card() as int);
                }
                Some(0)
            },
            Some(b) => match T::card() {
                Some(a) => a.checked_mul(b),
                None => {
                    proof {
                        assert(T::spec_card() * R::spec_card() > usize::MAX)
                            by (nonlinear_arith)
                            requires
                                T::spec_card() > usize::MAX,
                                R::spec_card() >= 1,
                        ;
                    }
                    None
                },
            },
            None => match T::card() {
                Some(0) => {
                    proof {
                        vstd::arithmetic::mul::lemma_mul_basics(R::spec_card() as int);
                    }
                    Some(0)
                },
                _ => {
                    proof {
                        assert(T::spec_card() * R::spec_card() > usize::MAX)
                            by (nonlinear_arith)
                            requires
                                T::spec_card() >= 1,
                                R::spec_card() > usize::MAX,
                        ;
                    }
                    None
                },
            },
        }
    }

    fn own(&self) -> (r: Self) {
        Product(self.0.own(), self.1.own())
    }

    fn to_index(&self) -> (r: Option<usize>) {
        proof {
            self.0.lemma_index_bijective();
            self.1.lemma_index_bijective();
        }
        let ghost it = self.0.spec_index();
        let ghost ir = self.1.spec_index();
        let ghost cr = R::spec_card();
        match self.0.to_index() {
            None => {
                proof {
                    assert(it * cr + ir > usize::MAX) by (nonlinear_arith)
                        requires
                            it > usize::MAX,
                            cr >= 1,
                            ir >= 0,
                    ;
                }
                None
            },
            Some(xi) => {
                if xi == 0 {
                    proof {
                        assert(it * cr == 0) by (nonlinear_arith)
                            requires
                                it == 0,
                        ;
                    }
                    self.1.to_index()
                } else {
                    match R::card() {
                        None => {
                            proof {
                                assert(it * cr + ir > usize::MAX) by (nonlinear_arith)
                                    requires
                                        it >= 1,
                                        cr > usize::MAX,
                                        ir >= 0,
                                ;
                            }
                            None
                        },
                        Some(rc) => match xi.checked_mul(rc) {
                            None => {
                                proof {
                                    assert(it * cr + ir > usize::MAX) by (nonlinear_arith)
                                        requires
                                            it * cr > usize::MAX,
                                            ir >= 0,
                                    ;
                                }
                                None
                            },
                            Some(m) => match self.1.to_index() {
                                Some(yi) => m.checked_add(yi),
                                None => None,
                            },
                        },
                    }
                }
            },
        }
    }

    fn from_index(i: usize) -> (r: Option<Self>) {
        let ghost ct = T::spec_card();
        let ghost cr = R::spec_card();
        match R::card() {
            Some(0) => {
                proof {
                    vstd::arithmetic::mul::lemma_mul_basics(ct as int);
                }
                None
            },
            Some(c) => {
                let q = i / c;
                let m = i % c;
                proof {
                    vstd::arithmetic::div_mod::lemma_fundamental_div_mod(i as int, c as int);
                    vstd::arithmetic::div_mod::lemma_mod_bound(i as int, c as int);
                }
                match T::from_index(q) {
                    Some(a) => match R::from_index(m) {
                        Some(b) => {
                            proof {
                                lemma_radix_bound(q as nat, m as nat, ct, cr);
                                lemma_radix_split(q as nat, m as nat, cr);
                            }
                            Some(Product(a, b))
                        },
                        None => unreached(),
                    },
                    None => {
                        proof {
                            assert(i >= ct * cr) by (nonlinear_arith)
                                requires
                                    cr >= 1,
                                    i as int / cr as int >= ct,
                                    i == (i as int / cr as int) * cr + (i as int % cr as int),
                                    i as int % cr as int >= 0,
                            ;
                        }
                        None
                    },
                }
            },
            None => {
                proof {
                    vstd::arithmetic::div_mod::lemma_basic_div(i as int, cr as int);
                    vstd::arithmetic::div_mod::lemma_small_mod(i as nat, cr);
                }
                match T::from_index(0) {
                    Some(a) => match R::from_index(i) {
                        Some(b) => {
                            proof {
                                assert(i < ct * cr) by (nonlinear_arith)
                                    requires
                                        ct >= 1,
                                        (i as nat) < cr,
                                ;
                            }
                            Some(Product(a, b))
                        },
                        None => unreached(),
                    },
                    None => {
                        proof {
                            vstd::arithmetic::mul::lemma_mul_basics(cr as int);
                        }
                        None
                    },
                }
            },
        }
    }

    fn first() -> (r: Option<Self>) {
        match (T::first(), R::first()) {
            (Some(a), Some(b)) => {
                proof {
                    let ct = T::spec_card();
                    let cr = R::spec_card();
                    assert(ct * cr >= 1) by (nonlinear_arith)
                        requires
                            ct >= 1,
                            cr >= 1,
                    ;
                    vstd::arithmetic::div_mod::lemma_basic_div(0, cr as int);
                    vstd::arithmetic::div_mod::lemma_small_mod(0, cr);
                }
                Some(Product(a, b))
            },
            _ => {
                proof {
                    vstd::arithmetic::mul::lemma_mul_basics(T::spec_card() as int);
                    vstd::arithmetic::mul::lemma_mul_basics(R::spec_card() as int);
                }
                None
            },
        }
    }

    fn last() -> (r: Option<Self>) {
        match (T::last(), R::last()) {
            (Some(a), Some(b)) => {
                proof {
                    let ct = T::spec_card();
                    let cr = R::spec_card();
                    assert(ct * cr >= 1 && ct * cr - 1 == (ct - 1) * cr + (cr - 1))
                        by (nonlinear_arith)
                        requires
                            ct >= 1,
                            cr >= 1,
                    ;
                    lemma_radix_split((ct - 1) as nat, (cr - 1) as nat, cr);
                }
                Some(Product(a, b))
            },
            _ => {
                proof {
                    vstd::arithmetic::mul::lemma_mul_basics(T::spec_card() as int);
                    vstd::arithmetic::mul::lemma_mul_basics(R::spec_card() as int);
                }
                None
            },
        }
    }

    fn prev(&self) -> (r: Option<Self>) {
        proof {
            self.0.lemma_index_bijective();
            self.1.lemma_index_bijective();
        }
        let ghost it = self.0.spec_index();
        let ghost ir = self.1.spec_index();
        let ghost cr = R::spec_card();
        match self.1.prev() {
            Some(p) => {
                proof {
                    lemma_radix_split(it, (ir - 1) as nat, cr);
                }
                Some(Product(self.0.own(), p))
            },
            None => match self.0.prev() {
                Some(px) => match R::last() {
                    Some(l) => {
                        proof {
                            assert(it * cr + 0 - 1 == (it - 1) * cr + (cr - 1))
                                by (nonlinear_arith)
                                requires
                                    it >= 1,
                                    cr >= 1,
                            ;
                            lemma_radix_split((it - 1) as nat, (cr - 1) as nat, cr);
                            assert(it * cr >= 1) by (nonlinear_arith)
                                requires
                                    it >= 1,
                                    cr >= 1,
                            ;
                        }
                        Some(Product(px, l))
                    },
                    None => unreached(),
                },
                None => {
                    proof {
                        assert(it * cr == 0) by (nonlinear_arith)
                            requires
                                it == 0,
                        ;
                    }
                    None
                },
            },
        }
    }

    fn succ(&self) -> (r: Option<Self>) {
        proof {
            self.0.lemma_index_bijective();
            self.1.lemma_index_bijective();
        }
        let ghost it = self.0.spec_index();
        let ghost ir = self.1.spec_index();
        let ghost ct = T::spec_card();
        let ghost cr = R::spec_card();
        match self.1.succ() {
            Some(s) => {
                proof {
                    lemma_radix_split(it, (ir + 1) as nat, cr);
                    lemma_radix_bound(it, (ir + 1) as nat, ct, cr);
                }
                Some(Product(self.0.own(), s))
            },
            None => match self.0.succ() {
                Some(sx) => match R::first() {
                    Some(f) => {
                        proof {
                            assert(it * cr + ir + 1 == (it + 1) * cr) by (nonlinear_arith)
                                requires
                                    ir + 1 == cr,
                            ;
                            lemma_radix_split((it + 1) as nat, 0, cr);
                            lemma_radix_bound((it + 1) as nat, 0, ct, cr);
                        }
                        Some(Product(sx, f))
                    },
                    None => unreached(),
                },
                None => {
                    proof {
                        assert(it * cr + ir + 1 == ct * cr) by (nonlinear_arith)
                            requires
                                ir + 1 == cr,
                                it + 1 == ct,
                        ;
                    }
                    None
                },
            },
        }
    }

    fn count_from(&self) -> (r: Option<usize>) {
        proof {
            self.0.lemma_index_bijective();
            self.1.lemma_index_bijective();
        }
        let ghost it = self.0.spec_index();
        let ghost ir = self.1.spec_index();
        let ghost ct = T::spec_card();
        let ghost cr = R::spec_card();
        proof {
            assert(ct * cr - (it * cr + ir) == (ct - it - 1) * cr + (cr - ir))
                by (nonlinear_arith)
                requires
                    it < ct,
                    ir < cr,
            ;
        }
        match self.0.count_from() {
            None => {
                proof {
                    assert((ct - it - 1) * cr + (cr - ir) >= ct - it) by (nonlinear_arith)
                        requires
                            it < ct,
                            ir < cr,
                    ;
                }
                None
            },
            Some(c) => {
                if c == 1 {
                    proof {
                        assert(ct * cr - (it * cr + ir) == cr - ir) by (nonlinear_arith)
                            requires
                                it + 1 == ct,
                                ir < cr,
                        ;
                    }
                    self.1.count_from()
                } else {
                    match R::card() {
                        None => {
                            proof {
                                assert((ct - it - 1) * cr + (cr - ir) > usize::MAX)
                                    by (nonlinear_arith)
                                    requires
                                        ct - it >= 2,
                                        ir < cr,
                                        cr > usize::MAX,
                                ;
                            }
                            None
                        },
                        Some(rc) => match (c - 1).checked_mul(rc) {
                            None => {
                                proof {
                                    assert((ct - it - 1) * cr + (cr - ir) > usize::MAX)
                                        by (nonlinear_arith)
                                        requires
                                            (ct - it - 1) * cr > usize::MAX,
                                            ir < cr,
                                    ;
                                }
                                None
                            },
                            Some(m) => match self.1.count_from() {
                                Some(yc) => yc.checked_add(m),
                                None => None,
                            },
                        },
                    }
                }
            },
        }
    }

    fn values_from(&self) -> (r: Vec<Self>) {
        proof {
            self.0.lemma_index_bijective();
            self.1.lemma_index_bijective();
        }
        let ghost it = self.0.spec_index();
        let ghost ir = self.1.spec_index();
        let ghost ct = T::spec_card();
        let ghost cr = R::spec_card();
        let ghost c0 = self.spec_index();
        let ghost total = Self::spec_card() - c0;
        proof {
            assert(ct * cr - (it * cr + ir) == (ct - it - 1) * cr + (cr - ir))
                by (nonlinear_arith)
                requires
                    it < ct,
                    ir < cr,
            ;
        }
        let rv = self.1.values_from();
        let mut out: Vec<Product<T, R>> = Vec::new();
        let mut k: usize = 0;
        while k < rv.len()
            invariant
                self.0.wf(),
                self.1.wf(),
                it == self.0.spec_index(),
                ir == self.1.spec_index(),
                ct == T::spec_card(),
                cr == R::spec_card(),
                c0 == it * cr + ir,
                it < ct,
                ir < cr,
                rv@.len() == cr - ir,
                forall|j: int| 0 <= j < rv@.len() ==> rv@[j] == R::value_at((ir + j) as nat),
                k <= rv.len(),
                out@.len() == k,
                forall|j: int|
                    0 <= j < k ==> out@[j] == Self::value_at((c0 + j) as nat),
            decreases rv@.len() - k,
        {
            proof {
                self.0.lemma_index_bijective();
                R::lemma_value_at_wf((ir + k) as nat);
                lemma_radix_split(it, (ir + k) as nat, cr);
            }
            out.push(Product(self.0.own(), rv[k].own()));
            k += 1;
        }
        let mut cur: Option<T> = self.0.succ();
        proof {
            if cur is Some {
                T::lemma_value_at_wf((it + 1) as nat);
                assert((it + 1) * cr - c0 == cr - ir) by (nonlinear_arith)
                    requires
                        c0 == it * cr + ir,
                ;
            } else {
                assert(ct * cr - c0 == cr - ir) by (nonlinear_arith)
                    requires
                        c0 == it * cr + ir,
                        it + 1 == ct,
                ;
            }
        }
        while cur.is_some()
            invariant
                self.0.wf(),
                self.1.wf(),
                it == self.0.spec_index(),
                ir == self.1.spec_index(),
                ct == T::spec_card(),
                cr == R::spec_card(),
                c0 == it * cr + ir,
                total == ct * cr - c0,
                total <= usize::MAX,
                it < ct,
                ir < cr,
                match cur {
                    Some(xv) => xv.wf() && it < xv.spec_index() && xv.spec_index() < ct
                        && out@.len() == xv.spec_index() * cr - c0,
                    None => out@.len() == total,
                },
                forall|j: int|
                    0 <= j < out@.len() ==> out@[j] == Self::value_at((c0 + j) as nat),
            decreases (match cur {
                Some(xv) => ct - xv.spec_index(),
                None => 0,
            }),
        {
            let xv = cur.unwrap();
            let ghost t = xv.spec_index();
            proof {
                xv.lemma_index_bijective();
                assert(t * cr - c0 + cr <= total && cr <= usize::MAX) by (nonlinear_arith)
                    requires
                        total == ct * cr - c0,
                        c0 == it * cr + ir,
                        it < t,
                        t < ct,
                        ir < cr,
                        c0 <= t * cr,
                        total <= usize::MAX,
                ;
                assert(c0 <= t * cr) by (nonlinear_arith)
                    requires
                        c0 == it * cr + ir,
                        it < t,
                        ir < cr,
                ;
            }
            let ra = g_all_values::<R>();
            let mut m: usize = 0;
            while m < ra.len()
                invariant
                    xv.wf(),
                    t == xv.spec_index(),
                    ct == T::spec_card(),
                    cr == R::spec_card(),
                    it < t,
                    t < ct,
                    c0 == it * cr + ir,
                    ir < cr,
                    c0 <= t * cr,
                    total == ct * cr - c0,
                    total <= usize::MAX,
                    t * cr - c0 + cr <= total,
                    ra@.len() == cr,
                    forall|j: int| 0 <= j < ra@.len() ==> ra@[j] == R::value_at(j as nat),
                    m <= ra.len(),
                    out@.len() == t * cr - c0 + m,
                    forall|j: int|
                        0 <= j < out@.len() ==> out@[j] == Self::value_at((c0 + j) as nat),
                decreases ra@.len() - m,
            {
                proof {
                    xv.lemma_index_bijective();
                    R::lemma_value_at_wf(m as nat);
                    lemma_radix_split(t, m as nat, cr);
                }
                out.push(Product(xv.own(), ra[m].own()));
                m += 1;
            }
            proof {
                assert(t * cr - c0 + cr == (t + 1) * cr - c0) by (nonlinear_arith)
                    requires
                        c0 <= t * cr,
                ;
            }
            cur = xv.succ();
            proof {
                if cur is Some {
                    T::lemma_value_at_wf((t + 1) as nat);
                } else {
                    assert((t + 1) * cr - c0 == total);
                }
            }
        }
        proof {
            if out@.len() != total {
                assert(false);
            }
        }
        out
    }
}

} // verus!
