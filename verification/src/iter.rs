//! Lazy forward traversal of a finite domain, and bulk folding.
//!
//! [`IterEachFrom`] is a one-directional sequence built from the successor
//! primitive: its only state is the next value, or exhaustion. The fold
//! functions traverse the whole domain, or a suffix of it, visiting the
//! structure once rather than calling the successor once per element.

use vstd::prelude::*;

verus! {

use crate::enumeration::{all_values, Enum};

/// The values of the domain from ordinal `start` upward, in ascending
/// order, as a specification-level sequence.
pub open spec fn values_seq_from<T: Enum>(start: nat) -> Seq<T> {
    Seq::new((T::spec_card() - start) as nat, |j: int| T::value_at((start + j) as nat))
}

/// Traverses a finite domain in ascending order, one value per step.
///
/// The single piece of state is the next value to hand out, or nothing
/// once the domain is exhausted; the step is the successor primitive.
pub struct IterEachFrom<T> {
    next: Option<T>,
}

impl<T: Enum> IterEachFrom<T> {
    /// The iterator holds a well-formed next value, or none.
    pub closed spec fn inv(self) -> bool {
        match self.next {
            Some(v) => v.wf(),
            None => true,
        }
    }

    /// The values this iterator has yet to hand out, in order.
    pub closed spec fn remaining(self) -> Seq<T> {
        match self.next {
            Some(v) => values_seq_from::<T>(v.spec_index()),
            None => Seq::empty(),
        }
    }

    /// Hands out the next value, or `None` once the domain is exhausted.
    pub fn next(&mut self) -> (r: Option<T>)
        requires
            old(self).inv(),
        ensures
            final(self).inv(),
            match r {
                Some(v) => old(self).remaining().len() > 0 && v == old(self).remaining()[0]
                    && final(self).remaining() == old(self).remaining().drop_first(),
                None => old(self).remaining().len() == 0 && *final(self) == *old(self),
            },
    {
        let cur = self.next.take();
        match cur {
            None => None,
            Some(v) => {
                proof {
                    v.lemma_index_bijective();
                }
                let nxt = v.succ();
                proof {
                    let i = v.spec_index();
                    if i + 1 < T::spec_card() {
                        T::lemma_value_at_wf((i + 1) as nat);
                        assert(values_seq_from::<T>((i + 1) as nat) =~= values_seq_from::<T>(
                            i,
                        ).drop_first());
                    } else {
                        assert(Seq::<T>::empty() =~= values_seq_from::<T>(i).drop_first());
                    }
                    assert(values_seq_from::<T>(i)[0] == T::value_at(i));
                }
                self.next = nxt;
                Some(v)
            },
        }
    }

    /// How many values are left to hand out, or `None` where that count
    /// exceeds `usize`.
    pub fn count(self) -> (r: Option<usize>)
        requires
            self.inv(),
        ensures
            match r {
                Some(c) => c == self.remaining().len(),
                None => self.remaining().len() > usize::MAX,
            },
    {
        match self.next {
            Some(v) => v.count_from(),
            None => Some(0),
        }
    }

    /// The final value this iterator would hand out, without stepping to
    /// it, or `None` if it is exhausted.
    pub fn last(self) -> (r: Option<T>)
        requires
            self.inv(),
        ensures
            match r {
                Some(v) => self.remaining().len() > 0 && v == T::value_at(
                    (T::spec_card() - 1) as nat,
                ),
                None => self.remaining().len() == 0,
            },
    {
        match self.next {
            Some(v) => {
                proof {
                    v.lemma_index_bijective();
                }
                T::last()
            },
            None => None,
        }
    }
}

/// An iterator over the whole domain, lowest value first.
pub fn iter_each<T: Enum>() -> (it: IterEachFrom<T>)
    ensures
        it.inv(),
        it.remaining() == values_seq_from::<T>(0),
{
    let f = T::first();
    proof {
        if f is Some {
            T::lemma_value_at_wf(0);
        } else {
            assert(Seq::<T>::empty() =~= values_seq_from::<T>(0));
        }
    }
    IterEachFrom { next: f }
}

/// An iterator from a given value (included) to the end of the domain.
pub fn iter_each_from<T: Enum>(x: T) -> (it: IterEachFrom<T>)
    requires
        x.wf(),
    ensures
        it.inv(),
        it.remaining() == values_seq_from::<T>(x.spec_index()),
{
    IterEachFrom { next: Some(x) }
}

/// Whether `res` is an outcome of folding `f` over the sequence `s`
/// starting from `init`: some chain of intermediate accumulators links
/// `init` to `res` through `f`'s postcondition, one element at a time.
pub open spec fn folds<T, B, F: Fn(B, T) -> B>(f: F, init: B, s: Seq<T>, res: B) -> bool
    decreases s.len(),
{
    if s.len() == 0 {
        res == init
    } else {
        exists|mid: B|
            #[trigger] call_ensures(f, (init, s[0]), mid) && folds(f, mid, s.drop_first(), res)
    }
}

/// Extending a fold by one element: a chain to `b` over `s`, followed by
/// one step from `b` to `b2` on `x`, is a chain to `b2` over `s.push(x)`.
proof fn lemma_folds_snoc<T, B, F: Fn(B, T) -> B>(f: F, init: B, s: Seq<T>, b: B, x: T, b2: B)
    requires
        folds(f, init, s, b),
        call_ensures(f, (b, x), b2),
    ensures
        folds(f, init, s.push(x), b2),
    decreases s.len(),
{
    if s.len() == 0 {
        assert(s.push(x)[0] == x);
        assert(s.push(x).drop_first() =~= Seq::<T>::empty());
        assert(call_ensures(f, (init, x), b2) && folds(f, b2, s.push(x).drop_first(), b2));
    } else {
        let mid = choose|mid: B|
            #[trigger] call_ensures(f, (init, s[0]), mid) && folds(f, mid, s.drop_first(), b);
        lemma_folds_snoc(f, mid, s.drop_first(), b, x, b2);
        assert(s.push(x).drop_first() =~= s.drop_first().push(x));
        assert(s.push(x)[0] == s[0]);
    }
}

/// Folds `f` over every value of the domain at or after `from`, in
/// ascending order.
pub fn fold_each_from<T: Enum, B, F: Fn(B, T) -> B>(from: &T, init: B, f: F) -> (res: B)
    requires
        from.wf(),
        T::spec_card() - from.spec_index() <= usize::MAX,
        forall|b: B, t: T| t.wf() ==> call_requires(f, (b, t)),
    ensures
        folds(f, init, values_seq_from::<T>(from.spec_index()), res),
{
    let vs = from.values_from();
    let ghost i0 = from.spec_index();
    let mut acc = init;
    let mut k: usize = 0;
    proof {
        assert(vs@.subrange(0, 0) =~= Seq::<T>::empty());
    }
    while k < vs.len()
        invariant
            i0 == from.spec_index(),
            vs@.len() == T::spec_card() - i0,
            forall|j: int| 0 <= j < vs@.len() ==> vs@[j] == T::value_at((i0 + j) as nat),
            forall|b: B, t: T| t.wf() ==> call_requires(f, (b, t)),
            k <= vs.len(),
            folds(f, init, vs@.subrange(0, k as int), acc),
        decreases vs@.len() - k,
    {
        proof {
            T::lemma_value_at_wf((i0 + k) as nat);
        }
        let v = vs[k].own();
        let acc2 = f(acc, v);
        proof {
            lemma_folds_snoc(f, init, vs@.subrange(0, k as int), acc, vs@[k as int], acc2);
            assert(vs@.subrange(0, k + 1 as int) =~= vs@.subrange(0, k as int).push(
                vs@[k as int],
            ));
        }
        acc = acc2;
        k += 1;
    }
    proof {
        assert(vs@.subrange(0, vs@.len() as int) =~= vs@);
        assert(vs@ =~= values_seq_from::<T>(i0));
    }
    acc
}

/// Folds `f` over every value of the domain, in ascending order.
pub fn fold_each<T: Enum, B, F: Fn(B, T) -> B>(init: B, f: F) -> (res: B)
    requires
        T::spec_card() <= usize::MAX,
        forall|b: B, t: T| t.wf() ==> call_requires(f, (b, t)),
    ensures
        folds(f, init, values_seq_from::<T>(0), res),
{
    let vs = all_values::<T>();
    let mut acc = init;
    let mut k: usize = 0;
    proof {
        assert(vs@.subrange(0, 0) =~= Seq::<T>::empty());
    }
    while k < vs.len()
        invariant
            vs@.len() == T::spec_card(),
            forall|j: int| 0 <= j < vs@.len() ==> vs@[j] == T::value_at(j as nat),
            forall|b: B, t: T| t.wf() ==> call_requires(f, (b, t)),
            k <= vs.len(),
            folds(f, init, vs@.subrange(0, k as int), acc),
        decreases vs@.len() - k,
    {
        proof {
            T::lemma_value_at_wf(k as nat);
        }
        let v = vs[k].own();
        let acc2 = f(acc, v);
        proof {
            lemma_folds_snoc(f, init, vs@.subrange(0, k as int), acc, vs@[k as int], acc2);
            assert(vs@.subrange(0, k + 1 as int) =~= vs@.subrange(0, k as int).push(
                vs@[k as int],
            ));
        }
        acc = acc2;
        k += 1;
    }
    proof {
        assert(vs@.subrange(0, vs@.len() as int) =~= vs@);
        assert(vs@ =~= values_seq_from::<T>(0));
    }
    acc
}

} // verus!
