//! Ordering, indexing, counting and traversal over finite domains.

use algtype::{all_values, fold_each, fold_each_from, g_all_values, iter_each, iter_each_from};
use algtype::{Enum, GEnum, One, Product, Sum, Zero};

fn assert_enum<T: Enum + PartialEq + std::fmt::Debug>(samples: &[T]) {
    let min = T::first().unwrap();
    let max = T::last().unwrap();
    assert_eq!(T::count_from(&min), T::card());
    assert_eq!(T::count_from(&max), Some(1));
    assert_eq!(min.prev(), None);
    assert_eq!(max.succ(), None);
    assert_eq!(min.to_index(), Some(0));
    assert_eq!(max.to_index().and_then(|x| x.checked_add(1)), T::card());

    for x in samples {
        let i = x.to_index().unwrap();
        assert_eq!(Some(x), T::from_index(i).as_ref());
        assert_eq!(i.checked_sub(1), x.prev().as_ref().and_then(|p| p.to_index()));

        if let Some(y) = x.succ() {
            assert_eq!(y.prev().as_ref(), Some(x));
        }
        if let Some(y) = x.prev() {
            assert_eq!(y.succ().as_ref(), Some(x));
        }

        assert_eq!(
            T::count_from(x).and_then(|c| c.checked_add(i)),
            T::card()
        );
    }
}

#[test]
fn test_test() {
    assert_enum::<bool>(&[false, true]);
    assert_enum::<Option<bool>>(&[None, Some(false), Some(true)]);
    assert_enum::<i8>(&[-128, -1, 0, 1, 127]);
    assert_enum::<u8>(&[0, 1, 254, 255]);
    assert_enum::<(bool, bool)>(&[(false, false), (false, true), (true, false), (true, true)]);
    assert_enum::<Result<bool, Option<bool>>>(&[
        Err(None),
        Err(Some(false)),
        Err(Some(true)),
        Ok(false),
        Ok(true),
    ]);
}

#[test]
fn optional_boolean_order() {
    assert_eq!(<Option<bool> as Enum>::card(), Some(3));
    assert_eq!(
        all_values::<Option<bool>>(),
        vec![None, Some(false), Some(true)]
    );
    assert_eq!(None::<bool>.to_index(), Some(0));
    assert_eq!(Some(false).to_index(), Some(1));
    assert_eq!(Some(true).to_index(), Some(2));
    assert_eq!(Option::<bool>::from_index(0), Some(None));
    assert_eq!(Option::<bool>::from_index(1), Some(Some(false)));
    assert_eq!(Option::<bool>::from_index(2), Some(Some(true)));
    assert_eq!(Option::<bool>::from_index(3), None);
}

#[test]
fn pair_of_booleans_order() {
    assert_eq!(<(bool, bool) as Enum>::card(), Some(4));
    assert_eq!(
        all_values::<(bool, bool)>(),
        vec![(false, false), (false, true), (true, false), (true, true)]
    );
    assert_eq!((false, true).to_index(), Some(1));
    assert_eq!((true, false).to_index(), Some(2));
}

#[test]
fn signed_byte_order() {
    assert_eq!(<i8 as Enum>::card(), Some(256));
    assert_eq!(i8::first(), Some(-128));
    assert_eq!(i8::last(), Some(127));
    assert_eq!((-1i8).succ(), Some(0));
    assert_eq!((-128i8).to_index(), Some(0));
    assert_eq!(127i8.to_index(), Some(255));
    assert_eq!(i8::from_index(0), Some(-128));
    assert_eq!(i8::from_index(255), Some(127));
    assert_eq!(i8::from_index(256), None);
    assert_eq!(0i8.prev(), Some(-1));
    assert_eq!(0i8.succ(), Some(1));
    assert_eq!(bool::count_from(&false), Some(2));
}

#[test]
fn wider_integer_leaves() {
    assert_eq!(<u16 as Enum>::card(), Some(65536));
    assert_eq!(u16::first(), Some(0));
    assert_eq!(u16::last(), Some(65535));
    assert_eq!(<i16 as Enum>::card(), Some(65536));
    assert_eq!(i16::first(), Some(-32768));
    assert_eq!(i16::last(), Some(32767));
    assert_eq!((-1i16).succ(), Some(0));
    assert_eq!((-32768i16).to_index(), Some(0));
    assert_eq!(32767i16.count_from(), Some(1));
}

#[test]
fn huge_integer_leaves() {
    assert_eq!(<i128 as Enum>::card(), None);
    assert_eq!(<u64 as Enum>::card(), None);
    assert_eq!(<usize as Enum>::card(), None);
    assert_eq!(0u128.to_index(), Some(0));
    assert_eq!(u128::MAX.to_index(), None);
    assert_eq!(12i8.to_index(), Some(140));
    assert_eq!(i16::from_index(99999), None);
    assert_eq!(u64::from_index(7), Some(7));
    assert_eq!(i64::first(), Some(i64::MIN));
    assert_eq!(i64::last(), Some(i64::MAX));
    assert_eq!((-1i64).succ(), Some(0));
    assert_eq!(usize::first(), Some(0));
    assert_eq!(usize::MAX.succ(), None);
    assert_eq!(isize::MIN.prev(), None);
    assert_eq!(0isize.to_index(), Some(isize::MAX as usize + 1));
    assert_eq!(i128::MAX.count_from(), Some(1));
    assert_eq!(0i128.count_from(), None);

    // A huge domain still enumerates from either end.
    let min = Option::<i128>::first().unwrap();
    let max = Option::<i128>::last().unwrap();
    assert_eq!(min, None);
    assert_eq!(max, Some(i128::MAX));
    assert_eq!(min.to_index(), Some(0));
    assert_eq!(max.to_index(), None);
    assert_eq!(Option::<i128>::count_from(&max), Some(1));
    assert_eq!(min.prev(), None);
    assert_eq!(max.succ(), None);
    assert_eq!(min.succ(), Some(Some(i128::MIN)));
    assert_eq!(Some(i128::MIN).prev(), Some(None));
}

#[test]
fn cardinality_overflow_reported() {
    // Two pairs of 16-bit components: the true cardinality is two to the
    // sixty-fourth, which exceeds usize, so the checked count reports the
    // overflow rather than wrapping.
    type Wide = ((u16, u16), (u16, u16));
    assert_eq!(<Wide as Enum>::card(), None);
    let first = Wide::first().unwrap();
    assert_eq!(Wide::count_from(&first), None);
    assert_eq!(first.to_index(), Some(0));
    // Every usize index is still in range, since the domain is larger.
    assert_eq!(
        Wide::from_index(usize::MAX).unwrap().to_index(),
        Some(usize::MAX)
    );
    let last = Wide::last().unwrap();
    assert_eq!(last, ((65535, 65535), (65535, 65535)));
    assert_eq!(last.to_index(), Some(usize::MAX));
    assert_eq!(Wide::count_from(&last), Some(1));
}

#[test]
fn three_variant_fold_matches_successors() {
    // The representation of a three-variant enum whose branches hold one,
    // one and two values: traversing it visits exactly four elements, in
    // declaration order, matching successor chaining from the first value.
    type Rep = Sum<One, Sum<One, Sum<Product<bool, One>, Zero>>>;
    let all = g_all_values::<Rep>();
    assert_eq!(all.len(), 4);
    assert_eq!(<Rep as GEnum>::card(), Some(4));
    for (i, v) in all.iter().enumerate() {
        assert_eq!(v.to_index(), Some(i));
    }
    let mut chained = Vec::new();
    let mut cur = Rep::first();
    while let Some(v) = cur {
        cur = v.succ();
        chained.push(v);
    }
    assert_eq!(all, chained);
}

#[test]
fn iterators_traverse_in_order() {
    let mut it = iter_each::<Option<bool>>();
    assert_eq!(it.next(), Some(None));
    assert_eq!(it.next(), Some(Some(false)));
    assert_eq!(it.next(), Some(Some(true)));
    assert_eq!(it.next(), None);
    assert_eq!(it.next(), None);

    let mut it = iter_each_from((false, true));
    assert_eq!(it.next(), Some((false, true)));
    assert_eq!(it.next(), Some((true, false)));
    assert_eq!(it.next(), Some((true, true)));
    assert_eq!(it.next(), None);

    assert_eq!(iter_each::<Option<bool>>().count(), Some(3));
    assert_eq!(iter_each_from(Some(true)).count(), Some(1));
    assert_eq!(iter_each::<Option<bool>>().last(), Some(Some(true)));
    let mut done = iter_each::<bool>();
    done.next();
    done.next();
    assert_eq!(done.count(), Some(0));
    assert_eq!(iter_each::<((u16, u16), (u16, u16))>().count(), None);
}

#[test]
fn folds_visit_every_value() {
    let collected = fold_each::<Option<bool>, Vec<Option<bool>>, _>(Vec::new(), |mut acc, x| {
        acc.push(x);
        acc
    });
    assert_eq!(collected, vec![None, Some(false), Some(true)]);

    let total = fold_each::<u8, u32, _>(0u32, |acc, x| acc + x as u32);
    assert_eq!(total, 255 * 256 / 2);

    let suffix = fold_each_from::<i8, Vec<i8>, _>(&125, Vec::new(), |mut acc, x| {
        acc.push(x);
        acc
    });
    assert_eq!(suffix, vec![125, 126, 127]);
}

#[test]
fn wide_tuples_expand_uniformly() {
    type T5 = (bool, bool, bool, bool, bool);
    assert_eq!(<T5 as Enum>::card(), Some(32));
    let x: T5 = (false, true, false, true, true);
    assert_eq!(x.to_index(), Some(0b01011));
    assert_eq!(T5::from_index(0b01011), Some(x));

    type T12 = (
        bool, bool, bool, bool, bool, bool, bool, bool, bool, bool, bool, bool,
    );
    assert_eq!(<T12 as Enum>::card(), Some(4096));
    let first = T12::first().unwrap();
    assert_eq!(first.to_index(), Some(0));
    let last = T12::last().unwrap();
    assert_eq!(last.to_index(), Some(4095));
    assert_eq!(last.succ(), None);
}

#[test]
fn empty_first_branch_recurses() {
    // A sum whose first branch is empty still finds its values in the
    // later branches.
    type Rep = Sum<Zero, Sum<One, Zero>>;
    assert_eq!(<Rep as GEnum>::card(), Some(1));
    let only = Rep::first().unwrap();
    assert_eq!(only, Sum::Next(Sum::This(One)));
    assert_eq!(only.to_index(), Some(0));
    assert_eq!(Rep::last().unwrap(), only);
    assert_eq!(only.succ(), None);
    assert_eq!(only.prev(), None);
    assert_eq!(Rep::from_index(1), None);
}

#[test]
fn unit_second_component_has_radix_one() {
    // A unit-product trailing component contributes radix one: the
    // leading field's ordinal is the whole ordinal.
    type Rep = Product<bool, One>;
    assert_eq!(<Rep as GEnum>::card(), Some(2));
    assert_eq!(Product(false, One).to_index(), Some(0));
    assert_eq!(Product(true, One).to_index(), Some(1));
    assert_eq!(Product(false, One).succ(), Some(Product(true, One)));
    assert_eq!(Product(true, One).succ(), None);
}

#[test]
fn result_order_errors_first() {
    let vs = all_values::<Result<(), bool>>();
    assert_eq!(vs, vec![Err(false), Err(true), Ok(())]);
}
