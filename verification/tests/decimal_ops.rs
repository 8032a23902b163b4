use lsd_core::decimal::{Dec, FRAC};

#[test]
fn one_is_frac_atomics() {
    assert_eq!(Dec::one(), Dec::from_atomics(FRAC));
    assert!(Dec::zero().is_zero());
    assert!(!Dec::one().is_zero());
}

#[test]
fn from_ratio_exact_and_floored() {
    // 1/2 is exact at 18 digits
    assert_eq!(
        Dec::checked_from_ratio(1, 2).unwrap(),
        Dec::from_atomics(500_000_000_000_000_000)
    );
    // 1/3 is floored
    assert_eq!(
        Dec::checked_from_ratio(1, 3).unwrap(),
        Dec::from_atomics(333_333_333_333_333_333)
    );
    // 2/3 floors to ...666, not rounds to ...667
    assert_eq!(
        Dec::checked_from_ratio(2, 3).unwrap(),
        Dec::from_atomics(666_666_666_666_666_666)
    );
}

#[test]
fn from_ratio_overflow_is_reported() {
    assert!(Dec::checked_from_ratio(u128::MAX, 1).is_none());
    assert!(Dec::checked_from_ratio(u128::MAX, u128::MAX).is_some());
}

#[test]
fn mul_exact_values() {
    let one_point_five = Dec::checked_from_ratio(3, 2).unwrap();
    // 1.5 * 1.5 == 2.25
    assert_eq!(
        one_point_five.checked_mul(one_point_five).unwrap(),
        Dec::checked_from_ratio(9, 4).unwrap()
    );
    // multiplication floors at the last atomic digit:
    // (1e-18) * (1e-18) is far below one atomic unit
    let atom = Dec::from_atomics(1);
    assert_eq!(atom.checked_mul(atom).unwrap(), Dec::zero());
}

#[test]
fn mul_overflow_is_reported() {
    let huge = Dec::from_atomics(u128::MAX);
    assert!(huge.checked_mul(huge).is_none());
    assert!(huge.checked_mul(Dec::one()).is_some());
}

#[test]
fn div_exact_values() {
    let three = Dec::from_integer(3).unwrap();
    let two = Dec::from_integer(2).unwrap();
    assert_eq!(
        three.checked_div(two).unwrap(),
        Dec::checked_from_ratio(3, 2).unwrap()
    );
    // 1 / 3 floors
    assert_eq!(
        Dec::one().checked_div(three).unwrap(),
        Dec::from_atomics(333_333_333_333_333_333)
    );
}

#[test]
fn uint_mul_and_div_floor() {
    let one_point_five = Dec::checked_from_ratio(3, 2).unwrap();
    // 1234 / 1.5 == 822.67 -> 822
    assert_eq!(one_point_five.div_uint_floor(1234).unwrap(), 822);
    // 1234 * 1.5 == 1851 exactly
    assert_eq!(one_point_five.mul_uint_floor(1234).unwrap(), 1851);
    // 1235 * 1.5 == 1852.5 -> 1852
    assert_eq!(one_point_five.mul_uint_floor(1235).unwrap(), 1852);
}

#[test]
fn floor_and_frac_decompose() {
    let v = Dec::checked_from_ratio(9999999, 100).unwrap(); // 99999.99
    assert_eq!(v.floor_uint(), 99999);
    assert_eq!(v.frac(), Dec::checked_from_ratio(99, 100).unwrap());
    // floor * FRAC + frac == original value
    assert_eq!(v.floor_uint() * FRAC + v.frac().atomics, v.atomics);
}

#[test]
fn add_sub_and_compare() {
    let a = Dec::checked_from_ratio(1, 4).unwrap();
    let b = Dec::checked_from_ratio(3, 4).unwrap();
    assert_eq!(a.checked_add(b).unwrap(), Dec::one());
    assert_eq!(b.checked_sub(a).unwrap(), Dec::checked_from_ratio(1, 2).unwrap());
    assert!(a.checked_sub(b).is_none());
    assert!(a.lt(&b));
    assert!(a.le(&b));
    assert!(!b.lt(&a));
    assert_eq!(a.min(b), a);
    assert_eq!(Dec::from_atomics(u128::MAX).checked_add(Dec::from_atomics(1)), None);
}

#[test]
fn mul_int_is_exact() {
    let rate = Dec::checked_from_ratio(9, 100).unwrap();
    assert_eq!(
        rate.checked_mul_int(1000).unwrap(),
        Dec::from_integer(90).unwrap()
    );
    assert!(Dec::from_atomics(u128::MAX).checked_mul_int(2).is_none());
}

#[test]
fn div_int_floors_atomics() {
    let v = Dec::from_atomics(7);
    assert_eq!(v.div_int(2), Dec::from_atomics(3));
}
