//! The dense total map: construction, lookup, update, combination and
//! ordered traversal.

use algtype::{Enum, TotalMap};

#[test]
fn test_map() {
    // Every key holds the generator's output; overwriting one key leaves
    // the rest in place, and iteration stays in ascending key order.
    let m: TotalMap<i8, Result<i8, usize>> = TotalMap::from_fn(Ok);
    let keys: [i8; 10] = [3, -3, 0, -128, 127, 1, 1, -1, 100, -100];
    let mut m2 = m;
    for (i, k) in keys.iter().enumerate() {
        m2.set(k, Err(i));
    }
    for (k, v) in m2.iter() {
        match *v {
            Ok(v) => assert_eq!(k, v),
            Err(i) => assert_eq!(k, keys[i]),
        }
    }
}

#[test]
fn map_with_key_hands_each_key() {
    let m: TotalMap<Option<bool>, u8> = TotalMap::new(10);
    let m = m.map_with_key(|k, v| v + k.to_index().unwrap() as u8);
    assert_eq!(*m.get(&None), 10);
    assert_eq!(*m.get(&Some(false)), 11);
    assert_eq!(*m.get(&Some(true)), 12);
}

#[test]
fn generator_and_overwrite_in_order() {
    // A map keyed by the optional boolean, filled by a generator, with one
    // key overwritten: ordered iteration yields the generator's outputs
    // with just that slot replaced.
    let f = |k: Option<bool>| match k {
        None => 100u32,
        Some(false) => 200,
        Some(true) => 300,
    };
    let mut m: TotalMap<Option<bool>, u32> = TotalMap::from_fn(f);
    m.set(&Some(true), 999);
    assert_eq!(m.into_values(), vec![100, 200, 999]);
}

#[test]
fn new_clones_one_value_everywhere() {
    let m: TotalMap<bool, i32> = TotalMap::new(42);
    assert_eq!(*m.get(&false), 42);
    assert_eq!(*m.get(&true), 42);
    assert_eq!(m.len(), 2);
}

#[test]
fn from_fn_generates_each_value() {
    let m: TotalMap<Option<bool>, bool> = TotalMap::from_fn(|k: Option<bool>| k.is_some());
    assert_eq!(*m.get(&Some(false)), true);
    assert_eq!(*m.get(&None), false);
}

#[test]
fn map_transforms_values() {
    let m: TotalMap<(), i32> = TotalMap::new(-1);
    let m = m.map(|v: i32| v.is_positive());
    assert_eq!(*m.get(&()), false);
}

#[test]
fn map_ref_reads_without_consuming() {
    let m: TotalMap<i8, i16> = TotalMap::from_fn(|x: i8| x as i16);
    let n = m.map_ref(|v| *v >= 0);
    assert_eq!(*n.get(&10), true);
    assert_eq!(*n.get(&-42), false);
    assert_eq!(*m.get(&10), 10);
}

#[test]
fn zip_pairs_values_per_key() {
    let m: TotalMap<bool, u8> = TotalMap::new(1);
    let n: TotalMap<bool, u8> = TotalMap::new(2);
    let o = m.zip(n);
    assert_eq!(*o.get(&true), (1, 2));
    assert_eq!(*o.get(&false), (1, 2));
}

#[test]
fn zip_with_combines_values_per_key() {
    let m: TotalMap<Option<bool>, u32> = TotalMap::from_fn(|k: Option<bool>| k.to_index().unwrap() as u32);
    let n: TotalMap<Option<bool>, u32> = TotalMap::new(10);
    let o = m.zip_with(n, |x, y| x + y);
    assert_eq!(o.into_values(), vec![10, 11, 12]);
}

#[test]
fn values_in_ascending_key_order() {
    let m: TotalMap<Option<bool>, bool> = TotalMap::from_fn(|x: Option<bool>| x.is_some());
    assert_eq!(m.values(), &vec![false, true, true]);
    assert_eq!(m.into_values(), vec![false, true, true]);
}

#[test]
fn as_ref_projects_each_slot() {
    let m: TotalMap<(), u64> = TotalMap::new(42);
    let r = m.as_ref();
    assert_eq!(**r.get(&()), 42);
}

#[test]
fn iter_pairs_keys_with_values() {
    let m: TotalMap<Option<bool>, bool> = TotalMap::from_fn(|x: Option<bool>| x.is_some());
    let pairs = m.iter();
    assert_eq!(
        pairs,
        vec![(None, &false), (Some(false), &true), (Some(true), &true)]
    );
}

#[test]
fn composite_keys() {
    let m: TotalMap<Result<bool, (bool, Option<bool>)>, usize> =
        TotalMap::from_fn(|k: Result<bool, (bool, Option<bool>)>| k.to_index().unwrap());
    assert_eq!(m.len(), 6 + 2);
    assert_eq!(*m.get(&Err((false, None))), 0);
    assert_eq!(*m.get(&Err((true, Some(true)))), 5);
    assert_eq!(*m.get(&Ok(false)), 6);
    assert_eq!(*m.get(&Ok(true)), 7);
}
