//! The structural isomorphism for the built-in composite types.
//!
//! `bool` and the unit type are fixed two- and one-value shapes; options
//! and results are two-variant sums; tuples are single-variant products,
//! one field per position. Each type also opts into the enumeration
//! algebra where its leaves are enumerable.

use vstd::prelude::*;

verus! {

use crate::enumeration::{Enum, GenericEnum};
use crate::generic::{Generic, One, Product, Sum, Zero};

impl Generic for bool {
    type Repr = Sum<One, Sum<One, Zero>>;

    open spec fn to_repr(self) -> Self::Repr {
        if self {
            Sum::Next(Sum::This(One))
        } else {
            Sum::This(One)
        }
    }

    open spec fn of_repr(r: Self::Repr) -> bool {
        match r {
            Sum::This(_) => false,
            Sum::Next(_) => true,
        }
    }

    proof fn lemma_encode_wf(self) {
    }

    proof fn lemma_decode_inverse(r: Self::Repr) {
    }

    fn into_repr(self) -> (r: Self::Repr) {
        if self {
            Sum::Next(Sum::This(One))
        } else {
            Sum::This(One)
        }
    }

    fn from_repr(r: Self::Repr) -> (res: bool) {
        match r {
            Sum::This(_) => false,
            Sum::Next(Sum::This(_)) => true,
            Sum::Next(Sum::Next(_)) => unreached(),
        }
    }
}

impl GenericEnum for bool {
    fn as_repr(&self) -> (r: Self::Repr) {
        if *self {
            Sum::Next(Sum::This(One))
        } else {
            Sum::This(One)
        }
    }
}

impl Generic for () {
    type Repr = Sum<One, Zero>;

    open spec fn to_repr(self) -> Self::Repr {
        Sum::This(One)
    }

    open spec fn of_repr(r: Self::Repr) -> () {
        ()
    }

    proof fn lemma_encode_wf(self) {
    }

    proof fn lemma_decode_inverse(r: Self::Repr) {
    }

    fn into_repr(self) -> (r: Self::Repr) {
        Sum::This(One)
    }

    fn from_repr(r: Self::Repr) -> (res: ()) {
        ()
    }
}

impl GenericEnum for () {
    fn as_repr(&self) -> (r: Self::Repr) {
        Sum::This(One)
    }
}

impl<T> Generic for Option<T> {
    type Repr = Sum<One, Sum<Product<T, One>, Zero>>;

    open spec fn to_repr(self) -> Self::Repr {
        match self {
            None => Sum::This(One),
            Some(x) => Sum::Next(Sum::This(Product(x, One))),
        }
    }

    open spec fn of_repr(r: Self::Repr) -> Option<T> {
        match r {
            Sum::This(_) => None,
            Sum::Next(s) => match s {
                Sum::This(p) => Some(p.0),
                Sum::Next(_) => arbitrary(),
            },
        }
    }

    proof fn lemma_encode_wf(self) {
    }

    proof fn lemma_decode_inverse(r: Self::Repr) {
    }

    fn into_repr(self) -> (r: Self::Repr) {
        match self {
            None => Sum::This(One),
            Some(x) => Sum::Next(Sum::This(Product(x, One))),
        }
    }

    fn from_repr(r: Self::Repr) -> (res: Option<T>) {
        match r {
            Sum::This(_) => None,
            Sum::Next(Sum::This(p)) => Some(p.0),
            Sum::Next(Sum::Next(_)) => unreached(),
        }
    }
}

impl<T: Enum> GenericEnum for Option<T> {
    fn as_repr(&self) -> (r: Self::Repr) {
        match self {
            None => Sum::This(One),
            Some(x) => Sum::Next(Sum::This(Product(x.own(), One))),
        }
    }
}

impl<T, E> Generic for Result<T, E> {
    type Repr = Sum<Product<E, One>, Sum<Product<T, One>, Zero>>;

    open spec fn to_repr(self) -> Self::Repr {
        match self {
            Err(e) => Sum::This(Product(e, One)),
            Ok(t) => Sum::Next(Sum::This(Product(t, One))),
        }
    }

    open spec fn of_repr(r: Self::Repr) -> Result<T, E> {
        match r {
            Sum::This(p) => Err(p.0),
            Sum::Next(s) => match s {
                Sum::This(p) => Ok(p.0),
                Sum::Next(_) => arbitrary(),
            },
        }
    }

    proof fn lemma_encode_wf(self) {
    }

    proof fn lemma_decode_inverse(r: Self::Repr) {
    }

    fn into_repr(self) -> (r: Self::Repr) {
        match self {
            Err(e) => Sum::This(Product(e, One)),
            Ok(t) => Sum::Next(Sum::This(Product(t, One))),
        }
    }

    fn from_repr(r: Self::Repr) -> (res: Result<T, E>) {
        match r {
            Sum::This(p) => Err(p.0),
            Sum::Next(Sum::This(p)) => Ok(p.0),
            Sum::Next(Sum::Next(_)) => unreached(),
        }
    }
}

impl<T: Enum, E: Enum> GenericEnum for Result<T, E> {
    fn as_repr(&self) -> (r: Self::Repr) {
        match self {
            Err(e) => Sum::This(Product(e.own(), One)),
            Ok(t) => Sum::Next(Sum::This(Product(t.own(), One))),
        }
    }
}

impl<A> Generic for (A,) {
    type Repr = Sum<Product<A, One>, Zero>;

    open spec fn to_repr(self) -> Self::Repr {
        Sum::This(Product(self.0, One))
    }

    open spec fn of_repr(r: Self::Repr) -> (A,) {
        match r {
            Sum::This(p) => (p.0,),
            Sum::Next(_) => arbitrary(),
        }
    }

    proof fn lemma_encode_wf(self) {
    }

    proof fn lemma_decode_inverse(r: Self::Repr) {
    }

    fn into_repr(self) -> (r: Self::Repr) {
        Sum::This(Product(self.0, One))
    }

    fn from_repr(r: Self::Repr) -> (res: (A,)) {
        match r {
            Sum::This(p) => (p.0,),
            Sum::Next(_) => unreached(),
        }
    }
}

impl<A: Enum> GenericEnum for (A,) {
    fn as_repr(&self) -> (r: Self::Repr) {
        Sum::This(Product(self.0.own(), One))
    }
}

impl<A, B> Generic for (A, B) {
    type Repr = Sum<Product<A, Product<B, One>>, Zero>;

    open spec fn to_repr(self) -> Self::Repr {
        Sum::This(Product(self.0, Product(self.1, One)))
    }

    open spec fn of_repr(r: Self::Repr) -> (A, B) {
        match r {
            Sum::This(p) => (p.0, p.1.0),
            Sum::Next(_) => arbitrary(),
        }
    }

    proof fn lemma_encode_wf(self) {
    }

    proof fn lemma_decode_inverse(r: Self::Repr) {
    }

    fn into_repr(self) -> (r: Self::Repr) {
        Sum::This(Product(self.0, Product(self.1, One)))
    }

    fn from_repr(r: Self::Repr) -> (res: (A, B)) {
        match r {
            Sum::This(p) => {
                let Product(a, q) = p;
                (a, q.0)
            },
            Sum::Next(_) => unreached(),
        }
    }
}

impl<A: Enum, B: Enum> GenericEnum for (A, B) {
    fn as_repr(&self) -> (r: Self::Repr) {
        Sum::This(Product(self.0.own(), Product(self.1.own(), One)))
    }
}

impl<A, B, C> Generic for (A, B, C) {
    type Repr = Sum<Product<A, Product<B, Product<C, One>>>, Zero>;

    open spec fn to_repr(self) -> Self::Repr {
        Sum::This(Product(self.0, Product(self.1, Product(self.2, One))))
    }

    open spec fn of_repr(r: Self::Repr) -> (A, B, C) {
        match r {
            Sum::This(p) => (p.0, p.1.0, p.1.1.0),
            Sum::Next(_) => arbitrary(),
        }
    }

    proof fn lemma_encode_wf(self) {
    }

    proof fn lemma_decode_inverse(r: Self::Repr) {
    }

    fn into_repr(self) -> (r: Self::Repr) {
        Sum::This(Product(self.0, Product(self.1, Product(self.2, One))))
    }

    fn from_repr(r: Self::Repr) -> (res: (A, B, C)) {
        match r {
            Sum::This(p) => {
                let Product(a, q) = p;
                let Product(b, q2) = q;
                (a, b, q2.0)
            },
            Sum::Next(_) => unreached(),
        }
    }
}

impl<A: Enum, B: Enum, C: Enum> GenericEnum for (A, B, C) {
    fn as_repr(&self) -> (r: Self::Repr) {
        Sum::This(Product(self.0.own(), Product(self.1.own(), Product(self.2.own(), One))))
    }
}

impl<A, B, C, D> Generic for (A, B, C, D) {
    type Repr = Sum<Product<A, Product<B, Product<C, Product<D, One>>>>, Zero>;

    open spec fn to_repr(self) -> Self::Repr {
        Sum::This(Product(self.0, Product(self.1, Product(self.2, Product(self.3, One)))))
    }

    open spec fn of_repr(r: Self::Repr) -> (A, B, C, D) {
        match r {
            Sum::This(p) => (p.0, p.1.0, p.1.1.0, p.1.1.1.0),
            Sum::Next(_) => arbitrary(),
        }
    }

    proof fn lemma_encode_wf(self) {
    }

    proof fn lemma_decode_inverse(r: Self::Repr) {
    }

    fn into_repr(self) -> (r: Self::Repr) {
        Sum::This(Product(self.0, Product(self.1, Product(self.2, Product(self.3, One)))))
    }

    fn from_repr(r: Self::Repr) -> (res: (A, B, C, D)) {
        match r {
            Sum::This(p) => {
                let Product(a, q) = p;
                let Product(b, q2) = q;
                let Product(c, q3) = q2;
                (a, b, c, q3.0)
            },
            Sum::Next(_) => unreached(),
        }
    }
}

impl<A: Enum, B: Enum, C: Enum, D: Enum> GenericEnum for (A, B, C, D) {
    fn as_repr(&self) -> (r: Self::Repr) {
        Sum::This(
            Product(
                self.0.own(),
                Product(self.1.own(), Product(self.2.own(), Product(self.3.own(), One))),
            ),
        )
    }
}

impl<A, B, C, D, E> Generic for (A, B, C, D, E) {
    type Repr = Sum<Product<A, Product<B, Product<C, Product<D, Product<E, One>>>>>, Zero>;

    open spec fn to_repr(self) -> Self::Repr {
        Sum::This(Product(self.0, Product(self.1, Product(self.2, Product(self.3, Product(self.4, One))))))
    }

    open spec fn of_repr(r: Self::Repr) -> (A, B, C, D, E) {
        match r {
            Sum::This(p) => (p.0, p.1.0, p.1.1.0, p.1.1.1.0, p.1.1.1.1.0),
            Sum::Next(_) => arbitrary(),
        }
    }

    proof fn lemma_encode_wf(self) {
    }

    proof fn lemma_decode_inverse(r: Self::Repr) {
    }

    fn into_repr(self) -> (r: Self::Repr) {
        Sum::This(Product(self.0, Product(self.1, Product(self.2, Product(self.3, Product(self.4, One))))))
    }

    fn from_repr(r: Self::Repr) -> (res: (A, B, C, D, E)) {
        match r {
            Sum::This(p) => {
                let Product(a, q0) = p;
                let Product(b, q1) = q0;
                let Product(c, q2) = q1;
                let Product(d, q3) = q2;
                (a, b, c, d, q3.0)
            },
            Sum::Next(_) => unreached(),
        }
    }
}

impl<A: Enum, B: Enum, C: Enum, D: Enum, E: Enum> GenericEnum for (A, B, C, D, E) {
    fn as_repr(&self) -> (r: Self::Repr) {
        Sum::This(Product(self.0.own(), Product(self.1.own(), Product(self.2.own(), Product(self.3.own(), Product(self.4.own(), One))))))
    }
}

impl<A, B, C, D, E, F> Generic for (A, B, C, D, E, F) {
    type Repr = Sum<Product<A, Product<B, Product<C, Product<D, Product<E, Product<F, One>>>>>>, Zero>;

    open spec fn to_repr(self) -> Self::Repr {
        Sum::This(Product(self.0, Product(self.1, Product(self.2, Product(self.3, Product(self.4, Product(self.5, One)))))))
    }

    open spec fn of_repr(r: Self::Repr) -> (A, B, C, D, E, F) {
        match r {
            Sum::This(p) => (p.0, p.1.0, p.1.1.0, p.1.1.1.0, p.1.1.1.1.0, p.1.1.1.1.1.0),
            Sum::Next(_) => arbitrary(),
        }
    }

    proof fn lemma_encode_wf(self) {
    }

    proof fn lemma_decode_inverse(r: Self::Repr) {
    }

    fn into_repr(self) -> (r: Self::Repr) {
        Sum::This(Product(self.0, Product(self.1, Product(self.2, Product(self.3, Product(self.4, Product(self.5, One)))))))
    }

    fn from_repr(r: Self::Repr) -> (res: (A, B, C, D, E, F)) {
        match r {
            Sum::This(p) => {
                let Product(a, q0) = p;
                let Product(b, q1) = q0;
                let Product(c, q2) = q1;
                let Product(d, q3) = q2;
                let Product(e, q4) = q3;
                (a, b, c, d, e, q4.0)
            },
            Sum::Next(_) => unreached(),
        }
    }
}

impl<A: Enum, B: Enum, C: Enum, D: Enum, E: Enum, F: Enum> GenericEnum for (A, B, C, D, E, F) {
    fn as_repr(&self) -> (r: Self::Repr) {
        Sum::This(Product(self.0.own(), Product(self.1.own(), Product(self.2.own(), Product(self.3.own(), Product(self.4.own(), Product(self.5.own(), One)))))))
    }
}

impl<A, B, C, D, E, F, G> Generic for (A, B, C, D, E, F, G) {
    type Repr = Sum<Product<A, Product<B, Product<C, Product<D, Product<E, Product<F, Product<G, One>>>>>>>, Zero>;

    open spec fn to_repr(self) -> Self::Repr {
        Sum::This(Product(self.0, Product(self.1, Product(self.2, Product(self.3, Product(self.4, Product(self.5, Product(self.6, One))))))))
    }

    open spec fn of_repr(r: Self::Repr) -> (A, B, C, D, E, F, G) {
        match r {
            Sum::This(p) => (p.0, p.1.0, p.1.1.0, p.1.1.1.0, p.1.1.1.1.0, p.1.1.1.1.1.0, p.1.1.1.1.1.1.0),
            Sum::Next(_) => arbitrary(),
        }
    }

    proof fn lemma_encode_wf(self) {
    }

    proof fn lemma_decode_inverse(r: Self::Repr) {
    }

    fn into_repr(self) -> (r: Self::Repr) {
        Sum::This(Product(self.0, Product(self.1, Product(self.2, Product(self.3, Product(self.4, Product(self.5, Product(self.6, One))))))))
    }

    fn from_repr(r: Self::Repr) -> (res: (A, B, C, D, E, F, G)) {
        match r {
            Sum::This(p) => {
                let Product(a, q0) = p;
                let Product(b, q1) = q0;
                let Product(c, q2) = q1;
                let Product(d, q3) = q2;
                let Product(e, q4) = q3;
                let Product(f, q5) = q4;
                (a, b, c, d, e, f, q5.0)
            },
            Sum::Next(_) => unreached(),
        }
    }
}

impl<A: Enum, B: Enum, C: Enum, D: Enum, E: Enum, F: Enum, G: Enum> GenericEnum for (A, B, C, D, E, F, G) {
    fn as_repr(&self) -> (r: Self::Repr) {
        Sum::This(Product(self.0.own(), Product(self.1.own(), Product(self.2.own(), Product(self.3.own(), Product(self.4.own(), Product(self.5.own(), Product(self.6.own(), One))))))))
    }
}

impl<A, B, C, D, E, F, G, H> Generic for (A, B, C, D, E, F, G, H) {
    type Repr = Sum<Product<A, Product<B, Product<C, Product<D, Product<E, Product<F, Product<G, Product<H, One>>>>>>>>, Zero>;

    open spec fn to_repr(self) -> Self::Repr {
        Sum::This(Product(self.0, Product(self.1, Product(self.2, Product(self.3, Product(self.4, Product(self.5, Product(self.6, Product(self.7, One)))))))))
    }

    open spec fn of_repr(r: Self::Repr) -> (A, B, C, D, E, F, G, H) {
        match r {
            Sum::This(p) => (p.0, p.1.0, p.1.1.0, p.1.1.1.0, p.1.1.1.1.0, p.1.1.1.1.1.0, p.1.1.1.1.1.1.0, p.1.1.1.1.1.1.1.0),
            Sum::Next(_) => arbitrary(),
        }
    }

    proof fn lemma_encode_wf(self) {
    }

    proof fn lemma_decode_inverse(r: Self::Repr) {
    }

    fn into_repr(self) -> (r: Self::Repr) {
        Sum::This(Product(self.0, Product(self.1, Product(self.2, Product(self.3, Product(self.4, Product(self.5, Product(self.6, Product(self.7, One)))))))))
    }

    fn from_repr(r: Self::Repr) -> (res: (A, B, C, D, E, F, G, H)) {
        match r {
            Sum::This(p) => {
                let Product(a, q0) = p;
                let Product(b, q1) = q0;
                let Product(c, q2) = q1;
                let Product(d, q3) = q2;
                let Product(e, q4) = q3;
                let Product(f, q5) = q4;
                let Product(g, q6) = q5;
                (a, b, c, d, e, f, g, q6.0)
            },
            Sum::Next(_) => unreached(),
        }
    }
}

impl<A: Enum, B: Enum, C: Enum, D: Enum, E: Enum, F: Enum, G: Enum, H: Enum> GenericEnum for (A, B, C, D, E, F, G, H) {
    fn as_repr(&self) -> (r: Self::Repr) {
        Sum::This(Product(self.0.own(), Product(self.1.own(), Product(self.2.own(), Product(self.3.own(), Product(self.4.own(), Product(self.5.own(), Product(self.6.own(), Product(self.7.own(), One)))))))))
    }
}

impl<A, B, C, D, E, F, G, H, I> Generic for (A, B, C, D, E, F, G, H, I) {
    type Repr = Sum<Product<A, Product<B, Product<C, Product<D, Product<E, Product<F, Product<G, Product<H, Product<I, One>>>>>>>>>, Zero>;

    open spec fn to_repr(self) -> Self::Repr {
        Sum::This(Product(self.0, Product(self.1, Product(self.2, Product(self.3, Product(self.4, Product(self.5, Product(self.6, Product(self.7, Product(self.8, One))))))))))
    }

    open spec fn of_repr(r: Self::Repr) -> (A, B, C, D, E, F, G, H, I) {
        match r {
            Sum::This(p) => (p.0, p.1.0, p.1.1.0, p.1.1.1.0, p.1.1.1.1.0, p.1.1.1.1.1.0, p.1.1.1.1.1.1.0, p.1.1.1.1.1.1.1.0, p.1.1.1.1.1.1.1.1.0),
            Sum::Next(_) => arbitrary(),
        }
    }

    proof fn lemma_encode_wf(self) {
    }

    proof fn lemma_decode_inverse(r: Self::Repr) {
    }

    fn into_repr(self) -> (r: Self::Repr) {
        Sum::This(Product(self.0, Product(self.1, Product(self.2, Product(self.3, Product(self.4, Product(self.5, Product(self.6, Product(self.7, Product(self.8, One))))))))))
    }

    fn from_repr(r: Self::Repr) -> (res: (A, B, C, D, E, F, G, H, I)) {
        match r {
            Sum::This(p) => {
                let Product(a, q0) = p;
                let Product(b, q1) = q0;
                let Product(c, q2) = q1;
                let Product(d, q3) = q2;
                let Product(e, q4) = q3;
                let Product(f, q5) = q4;
                let Product(g, q6) = q5;
                let Product(h, q7) = q6;
                (a, b, c, d, e, f, g, h, q7.0)
            },
            Sum::Next(_) => unreached(),
        }
    }
}

impl<A: Enum, B: Enum, C: Enum, D: Enum, E: Enum, F: Enum, G: Enum, H: Enum, I: Enum> GenericEnum for (A, B, C, D, E, F, G, H, I) {
    fn as_repr(&self) -> (r: Self::Repr) {
        Sum::This(Product(self.0.own(), Product(self.1.own(), Product(self.2.own(), Product(self.3.own(), Product(self.4.own(), Product(self.5.own(), Product(self.6.own(), Product(self.7.own(), Product(self.8.own(), One))))))))))
    }
}

impl<A, B, C, D, E, F, G, H, I, J> Generic for (A, B, C, D, E, F, G, H, I, J) {
    type Repr = Sum<Product<A, Product<B, Product<C, Product<D, Product<E, Product<F, Product<G, Product<H, Product<I, Product<J, One>>>>>>>>>>, Zero>;

    open spec fn to_repr(self) -> Self::Repr {
        Sum::This(Product(self.0, Product(self.1, Product(self.2, Product(self.3, Product(self.4, Product(self.5, Product(self.6, Product(self.7, Product(self.8, Product(self.9, One)))))))))))
    }

    open spec fn of_repr(r: Self::Repr) -> (A, B, C, D, E, F, G, H, I, J) {
        match r {
            Sum::This(p) => (p.0, p.1.0, p.1.1.0, p.1.1.1.0, p.1.1.1.1.0, p.1.1.1.1.1.0, p.1.1.1.1.1.1.0, p.1.1.1.1.1.1.1.0, p.1.1.1.1.1.1.1.1.0, p.1.1.1.1.1.1.1.1.1.0),
            Sum::Next(_) => arbitrary(),
        }
    }

    proof fn lemma_encode_wf(self) {
    }

    proof fn lemma_decode_inverse(r: Self::Repr) {
    }

    fn into_repr(self) -> (r: Self::Repr) {
        Sum::This(Product(self.0, Product(self.1, Product(self.2, Product(self.3, Product(self.4, Product(self.5, Product(self.6, Product(self.7, Product(self.8, Product(self.9, One)))))))))))
    }

    fn from_repr(r: Self::Repr) -> (res: (A, B, C, D, E, F, G, H, I, J)) {
        match r {
            Sum::This(p) => {
                let Product(a, q0) = p;
                let Product(b, q1) = q0;
                let Product(c, q2) = q1;
                let Product(d, q3) = q2;
                let Product(e, q4) = q3;
                let Product(f, q5) = q4;
                let Product(g, q6) = q5;
                let Product(h, q7) = q6;
                let Product(i, q8) = q7;
                (a, b, c, d, e, f, g, h, i, q8.0)
            },
            Sum::Next(_) => unreached(),
        }
    }
}

impl<A: Enum, B: Enum, C: Enum, D: Enum, E: Enum, F: Enum, G: Enum, H: Enum, I: Enum, J: Enum> GenericEnum for (A, B, C, D, E, F, G, H, I, J) {
    fn as_repr(&self) -> (r: Self::Repr) {
        Sum::This(Product(self.0.own(), Product(self.1.own(), Product(self.2.own(), Product(self.3.own(), Product(self.4.own(), Product(self.5.own(), Product(self.6.own(), Product(self.7.own(), Product(self.8.own(), Product(self.9.own(), One)))))))))))
    }
}

impl<A, B, C, D, E, F, G, H, I, J, K> Generic for (A, B, C, D, E, F, G, H, I, J, K) {
    type Repr = Sum<Product<A, Product<B, Product<C, Product<D, Product<E, Product<F, Product<G, Product<H, Product<I, Product<J, Product<K, One>>>>>>>>>>>, Zero>;

    open spec fn to_repr(self) -> Self::Repr {
        Sum::This(Product(self.0, Product(self.1, Product(self.2, Product(self.3, Product(self.4, Product(self.5, Product(self.6, Product(self.7, Product(self.8, Product(self.9, Product(self.10, One))))))))))))
    }

    open spec fn of_repr(r: Self::Repr) -> (A, B, C, D, E, F, G, H, I, J, K) {
        match r {
            Sum::This(p) => (p.0, p.1.0, p.1.1.0, p.1.1.1.0, p.1.1.1.1.0, p.1.1.1.1.1.0, p.1.1.1.1.1.1.0, p.1.1.1.1.1.1.1.0, p.1.1.1.1.1.1.1.1.0, p.1.1.1.1.1.1.1.1.1.0, p.1.1.1.1.1.1.1.1.1.1.0),
            Sum::Next(_) => arbitrary(),
        }
    }

    proof fn lemma_encode_wf(self) {
    }

    proof fn lemma_decode_inverse(r: Self::Repr) {
    }

    fn into_repr(self) -> (r: Self::Repr) {
        Sum::This(Product(self.0, Product(self.1, Product(self.2, Product(self.3, Product(self.4, Product(self.5, Product(self.6, Product(self.7, Product(self.8, Product(self.9, Product(self.10, One))))))))))))
    }

    fn from_repr(r: Self::Repr) -> (res: (A, B, C, D, E, F, G, H, I, J, K)) {
        match r {
            Sum::This(p) => {
                let Product(a, q0) = p;
                let Product(b, q1) = q0;
                let Product(c, q2) = q1;
                let Product(d, q3) = q2;
                let Product(e, q4) = q3;
                let Product(f, q5) = q4;
                let Product(g, q6) = q5;
                let Product(h, q7) = q6;
                let Product(i, q8) = q7;
                let Product(j, q9) = q8;
                (a, b, c, d, e, f, g, h, i, j, q9.0)
            },
            Sum::Next(_) => unreached(),
        }
    }
}

impl<A: Enum, B: Enum, C: Enum, D: Enum, E: Enum, F: Enum, G: Enum, H: Enum, I: Enum, J: Enum, K: Enum> GenericEnum for (A, B, C, D, E, F, G, H, I, J, K) {
    fn as_repr(&self) -> (r: Self::Repr) {
        Sum::This(Product(self.0.own(), Product(self.1.own(), Product(self.2.own(), Product(self.3.own(), Product(self.4.own(), Product(self.5.own(), Product(self.6.own(), Product(self.7.own(), Product(self.8.own(), Product(self.9.own(), Product(self.10.own(), One))))))))))))
    }
}

impl<A, B, C, D, E, F, G, H, I, J, K, L> Generic for (A, B, C, D, E, F, G, H, I, J, K, L) {
    type Repr = Sum<Product<A, Product<B, Product<C, Product<D, Product<E, Product<F, Product<G, Product<H, Product<I, Product<J, Product<K, Product<L, One>>>>>>>>>>>>, Zero>;

    open spec fn to_repr(self) -> Self::Repr {
        Sum::This(Product(self.0, Product(self.1, Product(self.2, Product(self.3, Product(self.4, Product(self.5, Product(self.6, Product(self.7, Product(self.8, Product(self.9, Product(self.10, Product(self.11, One)))))))))))))
    }

    open spec fn of_repr(r: Self::Repr) -> (A, B, C, D, E, F, G, H, I, J, K, L) {
        match r {
            Sum::This(p) => (p.0, p.1.0, p.1.1.0, p.1.1.1.0, p.1.1.1.1.0, p.1.1.1.1.1.0, p.1.1.1.1.1.1.0, p.1.1.1.1.1.1.1.0, p.1.1.1.1.1.1.1.1.0, p.1.1.1.1.1.1.1.1.1.0, p.1.1.1.1.1.1.1.1.1.1.0, p.1.1.1.1.1.1.1.1.1.1.1.0),
            Sum::Next(_) => arbitrary(),
        }
    }

    proof fn lemma_encode_wf(self) {
    }

    proof fn lemma_decode_inverse(r: Self::Repr) {
    }

    fn into_repr(self) -> (r: Self::Repr) {
        Sum::This(Product(self.0, Product(self.1, Product(self.2, Product(self.3, Product(self.4, Product(self.5, Product(self.6, Product(self.7, Product(self.8, Product(self.9, Product(self.10, Product(self.11, One)))))))))))))
    }

    fn from_repr(r: Self::Repr) -> (res: (A, B, C, D, E, F, G, H, I, J, K, L)) {
        match r {
            Sum::This(p) => {
                let Product(a, q0) = p;
                let Product(b, q1) = q0;
                let Product(c, q2) = q1;
                let Product(d, q3) = q2;
                let Product(e, q4) = q3;
                let Product(f, q5) = q4;
                let Product(g, q6) = q5;
                let Product(h, q7) = q6;
                let Product(i, q8) = q7;
                let Product(j, q9) = q8;
                let Product(k, q10) = q9;
                (a, b, c, d, e, f, g, h, i, j, k, q10.0)
            },
            Sum::Next(_) => unreached(),
        }
    }
}

impl<A: Enum, B: Enum, C: Enum, D: Enum, E: Enum, F: Enum, G: Enum, H: Enum, I: Enum, J: Enum, K: Enum, L: Enum> GenericEnum for (A, B, C, D, E, F, G, H, I, J, K, L) {
    fn as_repr(&self) -> (r: Self::Repr) {
        Sum::This(Product(self.0.own(), Product(self.1.own(), Product(self.2.own(), Product(self.3.own(), Product(self.4.own(), Product(self.5.own(), Product(self.6.own(), Product(self.7.own(), Product(self.8.own(), Product(self.9.own(), Product(self.10.own(), Product(self.11.own(), One)))))))))))))
    }
}

} // verus!
