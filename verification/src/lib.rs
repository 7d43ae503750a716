//! Structural representation of composite data as sums of products, with
//! total enumeration and dense total maps over finite key domains.
//!
//! A type's structure is encoded by four primitive shapes ([`Zero`],
//! [`One`], [`Sum`], [`Product`]); the bijection between a type and its
//! encoding is the [`Generic`] trait. On top of the encoding, two
//! algorithm families are built by recursion over the shape grammar:
//! the finite enumeration algebra ([`Enum`], derived through
//! [`GenericEnum`]) and the dense total map ([`TotalMap`], keyed through
//! [`MapKey`]).

pub mod enumeration;
pub mod generic;
pub mod genum;
pub mod impls;
pub mod iter;
pub mod mapkey;
pub mod numbers;
pub mod totalmap;
pub mod utils;

pub use enumeration::{all_values, Enum, GenericEnum};
pub use generic::{lemma_round_trip, Generic, One, Product, Repr, Sum, Zero};
pub use genum::{g_all_values, GEnum};
pub use iter::{fold_each, fold_each_from, iter_each, iter_each_from, IterEachFrom};
pub use mapkey::{GMapKey, GenericMapKey, MapKey};
pub use totalmap::TotalMap;
pub use utils::{cast, singleton, variant_count, VariantCount};
