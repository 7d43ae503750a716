//! Key domains for the dense total map.
//!
//! A key type must have a finite, totally ordered domain; the map's
//! storage holds exactly one slot per key, reached through the key's
//! ordinal without hashing or comparison. Wide domains (32 bits and up)
//! make that storage prohibitively large and should be avoided by callers.

use vstd::prelude::*;

verus! {

use crate::enumeration::{Enum, GenericEnum};
use crate::generic::{One, Product, Sum, Zero};
use crate::genum::GEnum;

/// A shape whose domain may key a dense total map.
pub trait GMapKey: GEnum {
}

impl GMapKey for Zero {
}

impl GMapKey for One {
}

impl<T: GMapKey, R: GMapKey> GMapKey for Sum<T, R> {
}

impl<T: MapKey, R: GMapKey> GMapKey for Product<T, R> {
}

/// A type whose domain may key a dense total map.
pub trait MapKey: Enum {
}

/// Opting a [`GenericEnum`] type into use as a dense-map key: a type
/// whose representation is keyable receives [`MapKey`] for free.
pub trait GenericMapKey: GenericEnum where Self::Repr: GEnum + GMapKey {
}

impl<T: GenericMapKey> MapKey for T where T::Repr: GEnum + GMapKey {
}

impl MapKey for u8 {
}

impl MapKey for i8 {
}

impl GenericMapKey for bool {
}

impl GenericMapKey for () {
}

impl<T: MapKey> GenericMapKey for Option<T> {
}

impl<T: MapKey, E: MapKey> GenericMapKey for Result<T, E> {
}

impl<A: MapKey> GenericMapKey for (A,) {
}

impl<A: MapKey, B: MapKey> GenericMapKey for (A, B) {
}

impl<A: MapKey, B: MapKey, C: MapKey> GenericMapKey for (A, B, C) {
}

impl<A: MapKey, B: MapKey, C: MapKey, D: MapKey> GenericMapKey for (A, B, C, D) {
}

impl<A: MapKey, B: MapKey, C: MapKey, D: MapKey, E: MapKey> GenericMapKey for (A, B, C, D, E) {
}

impl<A: MapKey, B: MapKey, C: MapKey, D: MapKey, E: MapKey, F: MapKey> GenericMapKey for (A, B, C, D, E, F) {
}

impl<A: MapKey, B: MapKey, C: MapKey, D: MapKey, E: MapKey, F: MapKey, G: MapKey> GenericMapKey for (A, B, C, D, E, F, G) {
}

impl<A: MapKey, B: MapKey, C: MapKey, D: MapKey, E: MapKey, F: MapKey, G: MapKey, H: MapKey> GenericMapKey for (A, B, C, D, E, F, G, H) {
}

impl<A: MapKey, B: MapKey, C: MapKey, D: MapKey, E: MapKey, F: MapKey, G: MapKey, H: MapKey, I: MapKey> GenericMapKey for (A, B, C, D, E, F, G, H, I) {
}

impl<A: MapKey, B: MapKey, C: MapKey, D: MapKey, E: MapKey, F: MapKey, G: MapKey, H: MapKey, I: MapKey, J: MapKey> GenericMapKey for (A, B, C, D, E, F, G, H, I, J) {
}

impl<A: MapKey, B: MapKey, C: MapKey, D: MapKey, E: MapKey, F: MapKey, G: MapKey, H: MapKey, I: MapKey, J: MapKey, K: MapKey> GenericMapKey for (A, B, C, D, E, F, G, H, I, J, K) {
}

impl<A: MapKey, B: MapKey, C: MapKey, D: MapKey, E: MapKey, F: MapKey, G: MapKey, H: MapKey, I: MapKey, J: MapKey, K: MapKey, L: MapKey> GenericMapKey for (A, B, C, D, E, F, G, H, I, J, K, L) {
}

} // verus!
