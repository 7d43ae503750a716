//! Round-trip behaviour of the structural isomorphism, and the utilities
//! built on it alone.

use algtype::{cast, singleton, variant_count, Generic, One, Product, Sum};

fn assert_refl<T: Generic + PartialEq + std::fmt::Debug + Clone>(x: T)
where
    T::Repr: PartialEq + std::fmt::Debug,
{
    let repr = x.clone().into_repr();
    assert_eq!(x, T::from_repr(repr));
}

#[test]
fn test() {
    assert_refl(false);
    assert_refl(true);
    assert_refl(());
    assert_refl(None::<i8>);
    assert_refl(Some(-7i8));
    assert_refl(Ok::<bool, u8>(true));
    assert_refl(Err::<bool, u8>(255));
    assert_refl((42u8,));
    assert_refl((1i8, true));
    assert_refl((1u8, false, -3i8));
    assert_refl(Some((true, Some(-1i8))));
}

#[test]
fn encode_shapes() {
    assert_eq!(None::<i8>.into_repr(), Sum::This(One));
    assert_eq!(Some(3i8).into_repr(), Sum::Next(Sum::This(Product(3i8, One))));
    assert_eq!(false.into_repr(), Sum::This(One));
    assert_eq!(true.into_repr(), Sum::Next(Sum::This(One)));
    assert_eq!(
        Err::<u8, i8>(-1).into_repr(),
        Sum::This(Product(-1i8, One))
    );
    assert_eq!(
        Ok::<u8, i8>(9).into_repr(),
        Sum::Next(Sum::This(Product(9u8, One)))
    );
    assert_eq!(
        (7u8, true).into_repr(),
        Sum::This(Product(7u8, Product(true, One)))
    );
}

#[test]
fn decode_shapes() {
    assert_eq!(bool::from_repr(Sum::This(One)), false);
    assert_eq!(bool::from_repr(Sum::Next(Sum::This(One))), true);
    assert_eq!(
        <(bool, bool)>::from_repr(Sum::This(Product(true, Product(false, One)))),
        (true, false)
    );
    assert_eq!(
        Option::<u8>::from_repr(Sum::Next(Sum::This(Product(200u8, One)))),
        Some(200)
    );
}

#[test]
fn singleton_builds_newtype() {
    let a: (i32,) = singleton(514);
    assert_eq!(a, (514,));
    let b: (Option<bool>,) = singleton(Some(true));
    assert_eq!(b, (Some(true),));
}

#[test]
fn cast_preserves_representation() {
    let a: (u8, bool) = cast((5u8, true));
    assert_eq!(a, (5, true));
    let b: Option<i8> = cast(Some(-3i8));
    assert_eq!(b, Some(-3));
}

#[test]
fn variant_counts() {
    assert_eq!(variant_count::<Option<()>>(), 2);
    assert_eq!(variant_count::<()>(), 1);
    assert_eq!(variant_count::<bool>(), 2);
    assert_eq!(variant_count::<Result<u8, i8>>(), 2);
    assert_eq!(variant_count::<(u8, i8)>(), 1);
}
