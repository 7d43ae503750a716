//! A fixed-size map holding exactly one value per key of a finite domain.
//!
//! The storage is sized to the key domain's cardinality and reached
//! through the key's ordinal, so lookup never fails and needs no hashing
//! or comparison. Storage and traversal cost are proportional to the
//! domain's size: keep key domains small.

use vstd::prelude::*;

verus! {

use crate::enumeration::{all_values, Enum};
use crate::mapkey::MapKey;
use vstd::pervasive::cloned;
use vstd::pervasive::VecAdditionalExecFns;

/// A dense total map from the finite domain of `K` to values of `V`.
///
/// Slot `i` of the storage holds the value of the key with ordinal `i`;
/// [`TotalMap::wf`] says the storage matches the domain exactly, and every
/// operation preserves it.
pub struct TotalMap<K, V> {
    vals: Vec<V>,
    key: core::marker::PhantomData<K>,
}

impl<K: MapKey, V> TotalMap<K, V> {
    /// The values in ascending key order.
    pub closed spec fn values_seq(self) -> Seq<V> {
        self.vals@
    }

    /// The storage holds exactly one slot per key of the domain.
    pub open spec fn wf(self) -> bool {
        self.values_seq().len() == K::spec_card()
    }

    /// The value stored under a key.
    pub open spec fn spec_get(self, k: K) -> V {
        self.values_seq()[k.spec_index() as int]
    }

    /// The number of keys, and so of stored values.
    pub fn len(&self) -> (r: usize)
        requires
            self.wf(),
        ensures
            r == K::spec_card(),
    {
        self.vals.len()
    }

    /// A map holding a clone of `v` under every key.
    pub fn new(v: V) -> (r: TotalMap<K, V>) where V: Clone
        requires
            K::spec_card() <= usize::MAX,
        ensures
            r.wf(),
            forall|k: K| k.wf() ==> cloned::<V>(v, #[trigger] r.spec_get(k)),
    {
        let c = match K::card() {
            Some(c) => c,
            None => unreached(),
        };
        let mut vals: Vec<V> = Vec::new();
        let mut i: usize = 0;
        while i < c
            invariant
                c == K::spec_card(),
                i <= c,
                vals@.len() == i,
                forall|j: int| 0 <= j < i ==> cloned::<V>(v, #[trigger] vals@[j]),
            decreases c - i,
        {
            vals.push(v.clone());
            i += 1;
        }
        let r = TotalMap { vals, key: core::marker::PhantomData };
        proof {
            assert forall|k: K| k.wf() implies cloned::<V>(v, #[trigger] r.spec_get(k)) by {
                k.lemma_index_bijective();
            }
        }
        r
    }

    /// A map holding, under every key, a value the generator `f` returned
    /// for that key; the generator is called over the keys in ascending
    /// order.
    pub fn from_fn<F: Fn(K) -> V>(f: F) -> (r: TotalMap<K, V>)
        requires
            K::spec_card() <= usize::MAX,
            forall|k: K| k.wf() ==> call_requires(f, (k,)),
        ensures
            r.wf(),
            forall|k: K| k.wf() ==> call_ensures(f, (k,), #[trigger] r.spec_get(k)),
    {
        let c = match K::card() {
            Some(c) => c,
            None => unreached(),
        };
        let mut vals: Vec<V> = Vec::new();
        let mut i: usize = 0;
        while i < c
            invariant
                c == K::spec_card(),
                forall|k: K| k.wf() ==> call_requires(f, (k,)),
                i <= c,
                vals@.len() == i,
                forall|j: int|
                    0 <= j < i ==> call_ensures(f, (K::value_at(j as nat),), #[trigger] vals@[j]),
            decreases c - i,
        {
            let k = match K::from_index(i) {
                Some(k) => k,
                None => unreached(),
            };
            proof {
                K::lemma_value_at_wf(i as nat);
            }
            vals.push(f(k));
            i += 1;
        }
        let r = TotalMap { vals, key: core::marker::PhantomData };
        proof {
            assert forall|k: K| k.wf() implies call_ensures(f, (k,), #[trigger] r.spec_get(k)) by {
                k.lemma_index_bijective();
            }
        }
        r
    }

    /// The value stored under `k`, by reference. Lookup is total: the
    /// storage always holds a slot for every key of the domain.
    pub fn get(&self, k: &K) -> (r: &V)
        requires
            self.wf(),
            k.wf(),
        ensures
            *r == self.spec_get(*k),
    {
        proof {
            k.lemma_index_bijective();
            vstd::std_specs::vec::axiom_spec_len(&self.vals);
        }
        let i = match k.to_index() {
            Some(i) => i,
            None => unreached(),
        };
        &self.vals[i]
    }

    /// Stores `v` under `k`, leaving every other key's value in place.
    pub fn set(&mut self, k: &K, v: V)
        requires
            old(self).wf(),
            k.wf(),
        ensures
            final(self).wf(),
            final(self).values_seq() == old(self).values_seq().update(k.spec_index() as int, v),
            final(self).spec_get(*k) == v,
            forall|k2: K|
                k2.wf() && k2.spec_index() != k.spec_index() ==> final(self).spec_get(k2) == old(
                    self,
                ).spec_get(k2),
    {
        proof {
            k.lemma_index_bijective();
            vstd::std_specs::vec::axiom_spec_len(&self.vals);
        }
        let i = match k.to_index() {
            Some(i) => i,
            None => unreached(),
        };
        self.vals.set(i, v);
        proof {
            assert forall|k2: K|
                k2.wf() && k2.spec_index() != k.spec_index() implies final(self).spec_get(k2)
                == old(self).spec_get(k2) by {
                k2.lemma_index_bijective();
            }
        }
    }

    /// A same-keyed map whose value under every key is an output of `f`
    /// on the value this map stored there.
    pub fn map<W, F: Fn(V) -> W>(self, f: F) -> (r: TotalMap<K, W>)
        requires
            self.wf(),
            forall|v: V| call_requires(f, (v,)),
        ensures
            r.wf(),
            forall|j: int|
                0 <= j < K::spec_card() ==> call_ensures(
                    f,
                    (self.values_seq()[j],),
                    #[trigger] r.values_seq()[j],
                ),
    {
        let mut vals = self.vals;
        let ghost orig = vals@;
        let mut out: Vec<W> = Vec::new();
        while vals.len() > 0
            invariant
                forall|v: V| call_requires(f, (v,)),
                out@.len() + vals@.len() == orig.len(),
                vals@ == orig.subrange(out@.len() as int, orig.len() as int),
                forall|j: int|
                    0 <= j < out@.len() ==> call_ensures(f, (orig[j],), #[trigger] out@[j]),
            decreases vals@.len(),
        {
            let v = vals.remove(0);
            out.push(f(v));
            proof {
                assert(vals@ =~= orig.subrange(out@.len() as int, orig.len() as int));
            }
        }
        TotalMap { vals: out, key: core::marker::PhantomData }
    }

    /// Like [`TotalMap::map`], with the key handed to `f` beside the value.
    pub fn map_with_key<W, F: Fn(K, V) -> W>(self, f: F) -> (r: TotalMap<K, W>)
        requires
            self.wf(),
            forall|k: K, v: V| k.wf() ==> call_requires(f, (k, v)),
        ensures
            r.wf(),
            forall|j: int|
                0 <= j < K::spec_card() ==> call_ensures(
                    f,
                    (K::value_at(j as nat), self.values_seq()[j]),
                    #[trigger] r.values_seq()[j],
                ),
    {
        let mut vals = self.vals;
        let ghost orig = vals@;
        let mut out: Vec<W> = Vec::new();
        while vals.len() > 0
            invariant
                orig.len() == K::spec_card(),
                forall|k: K, v: V| k.wf() ==> call_requires(f, (k, v)),
                out@.len() + vals@.len() == orig.len(),
                vals@ == orig.subrange(out@.len() as int, orig.len() as int),
                forall|j: int|
                    0 <= j < out@.len() ==> call_ensures(
                        f,
                        (K::value_at(j as nat), orig[j]),
                        #[trigger] out@[j],
                    ),
            decreases vals@.len(),
        {
            let i = out.len();
            let k = match K::from_index(i) {
                Some(k) => k,
                None => unreached(),
            };
            proof {
                K::lemma_value_at_wf(i as nat);
            }
            let v = vals.remove(0);
            out.push(f(k, v));
            proof {
                assert(vals@ =~= orig.subrange(out@.len() as int, orig.len() as int));
            }
        }
        TotalMap { vals: out, key: core::marker::PhantomData }
    }

    /// Like [`TotalMap::map`], reading the values by reference and leaving
    /// this map in place.
    pub fn map_ref<W, F: Fn(&V) -> W>(&self, f: F) -> (r: TotalMap<K, W>)
        requires
            self.wf(),
            forall|v: &V| call_requires(f, (v,)),
        ensures
            r.wf(),
            forall|j: int|
                0 <= j < K::spec_card() ==> call_ensures(
                    f,
                    (&self.values_seq()[j],),
                    #[trigger] r.values_seq()[j],
                ),
    {
        let mut out: Vec<W> = Vec::new();
        let n = self.vals.len();
        let mut i: usize = 0;
        while i < n
            invariant
                self.wf(),
                n == K::spec_card(),
                n == self.values_seq().len(),
                forall|v: &V| call_requires(f, (v,)),
                i <= n,
                out@.len() == i,
                forall|j: int|
                    0 <= j < i ==> call_ensures(
                        f,
                        (&self.values_seq()[j],),
                        #[trigger] out@[j],
                    ),
            decreases n - i,
        {
            out.push(f(&self.vals[i]));
            i += 1;
        }
        TotalMap { vals: out, key: core::marker::PhantomData }
    }

    /// A same-keyed map of references into this map's values, without
    /// copying any value.
    pub fn as_ref(&self) -> (r: TotalMap<K, &V>)
        requires
            self.wf(),
        ensures
            r.wf(),
            forall|j: int|
                0 <= j < K::spec_card() ==> *(#[trigger] r.values_seq()[j])
                    == self.values_seq()[j],
    {
        let n = self.vals.len();
        let mut out: Vec<&V> = Vec::new();
        let mut i: usize = 0;
        while i < n
            invariant
                self.wf(),
                n == K::spec_card(),
                n == self.values_seq().len(),
                i <= n,
                out@.len() == i,
                forall|j: int|
                    0 <= j < i ==> *(#[trigger] out@[j]) == self.values_seq()[j],
            decreases n - i,
        {
            out.push(&self.vals[i]);
            i += 1;
        }
        TotalMap { vals: out, key: core::marker::PhantomData }
    }

    /// Two same-keyed maps combined slotwise into a map of pairs.
    pub fn zip<W>(self, that: TotalMap<K, W>) -> (r: TotalMap<K, (V, W)>)
        requires
            self.wf(),
            that.wf(),
        ensures
            r.wf(),
            forall|j: int|
                0 <= j < K::spec_card() ==> #[trigger] r.values_seq()[j] == (
                    self.values_seq()[j],
                    that.values_seq()[j],
                ),
    {
        let mut a = self.vals;
        let mut b = that.vals;
        let ghost oa = a@;
        let ghost ob = b@;
        let mut out: Vec<(V, W)> = Vec::new();
        while a.len() > 0
            invariant
                oa.len() == ob.len(),
                out@.len() + a@.len() == oa.len(),
                a@ == oa.subrange(out@.len() as int, oa.len() as int),
                b@ == ob.subrange(out@.len() as int, ob.len() as int),
                forall|j: int|
                    0 <= j < out@.len() ==> #[trigger] out@[j] == (oa[j], ob[j]),
            decreases a@.len(),
        {
            let va = a.remove(0);
            let vb = b.remove(0);
            out.push((va, vb));
            proof {
                assert(a@ =~= oa.subrange(out@.len() as int, oa.len() as int));
                assert(b@ =~= ob.subrange(out@.len() as int, ob.len() as int));
            }
        }
        TotalMap { vals: out, key: core::marker::PhantomData }
    }

    /// Two same-keyed maps combined slotwise through `f`.
    pub fn zip_with<V2, W, F: Fn(V, V2) -> W>(self, that: TotalMap<K, V2>, f: F) -> (r: TotalMap<
        K,
        W,
    >)
        requires
            self.wf(),
            that.wf(),
            forall|a: V, b: V2| call_requires(f, (a, b)),
        ensures
            r.wf(),
            forall|j: int|
                0 <= j < K::spec_card() ==> call_ensures(
                    f,
                    (self.values_seq()[j], that.values_seq()[j]),
                    #[trigger] r.values_seq()[j],
                ),
    {
        let mut a = self.vals;
        let mut b = that.vals;
        let ghost oa = a@;
        let ghost ob = b@;
        let mut out: Vec<W> = Vec::new();
        while a.len() > 0
            invariant
                oa.len() == ob.len(),
                forall|x: V, y: V2| call_requires(f, (x, y)),
                out@.len() + a@.len() == oa.len(),
                a@ == oa.subrange(out@.len() as int, oa.len() as int),
                b@ == ob.subrange(out@.len() as int, ob.len() as int),
                forall|j: int|
                    0 <= j < out@.len() ==> call_ensures(f, (oa[j], ob[j]), #[trigger] out@[j]),
            decreases a@.len(),
        {
            let va = a.remove(0);
            let vb = b.remove(0);
            out.push(f(va, vb));
            proof {
                assert(a@ =~= oa.subrange(out@.len() as int, oa.len() as int));
                assert(b@ =~= ob.subrange(out@.len() as int, ob.len() as int));
            }
        }
        TotalMap { vals: out, key: core::marker::PhantomData }
    }

    /// The values, in ascending key order, consuming the map.
    pub fn into_values(self) -> (r: Vec<V>)
        ensures
            r@ == self.values_seq(),
    {
        self.vals
    }

    /// The values, in ascending key order, by reference.
    pub fn values(&self) -> (r: &Vec<V>)
        ensures
            r@ == self.values_seq(),
    {
        &self.vals
    }

    /// Every key beside a reference to its value, in ascending key order.
    pub fn iter(&self) -> (r: Vec<(K, &V)>)
        requires
            self.wf(),
        ensures
            r@.len() == K::spec_card(),
            forall|j: int|
                0 <= j < r@.len() ==> #[trigger] r@[j].0 == K::value_at(j as nat) && *r@[j].1
                    == self.values_seq()[j],
    {
        let n = self.vals.len();
        let ks = all_values::<K>();
        let mut out: Vec<(K, &V)> = Vec::new();
        let mut i: usize = 0;
        while i < n
            invariant
                self.wf(),
                n == K::spec_card(),
                n == self.values_seq().len(),
                ks@.len() == n,
                forall|j: int| 0 <= j < n ==> ks@[j] == K::value_at(j as nat),
                i <= n,
                out@.len() == i,
                forall|j: int|
                    0 <= j < i ==> #[trigger] out@[j].0 == K::value_at(j as nat) && *out@[j].1
                        == self.values_seq()[j],
            decreases n - i,
        {
            proof {
                K::lemma_value_at_wf(i as nat);
            }
            out.push((ks[i].own(), &self.vals[i]));
            i += 1;
        }
        out
    }
}

} // verus!
