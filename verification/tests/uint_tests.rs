use evm_runtime::uint::U256;

#[test]
fn zero_is_zero() {
    assert!(U256::zero().is_zero());
    assert!(!U256::from_u64(1).is_zero());
}

#[test]
fn from_u64_roundtrip_fields() {
    let v = U256::from_u64(7);
    assert_eq!(v.hi, 0);
    assert_eq!(v.lo, 7);
}

#[test]
fn checked_add_plain() {
    let a = U256::from_u64(40);
    let b = U256::from_u64(2);
    assert_eq!(a.checked_add(&b), Some(U256::from_u64(42)));
}

#[test]
fn checked_add_carries_into_high_limb() {
    let a = U256 { hi: 0, lo: u128::MAX };
    let b = U256::from_u64(1);
    assert_eq!(a.checked_add(&b), Some(U256 { hi: 1, lo: 0 }));
}

#[test]
fn checked_add_overflow_is_none() {
    let a = U256 { hi: u128::MAX, lo: u128::MAX };
    let b = U256::from_u64(1);
    assert_eq!(a.checked_add(&b), None);
}

#[test]
fn checked_sub_plain() {
    let a = U256::from_u64(42);
    let b = U256::from_u64(2);
    assert_eq!(a.checked_sub(&b), Some(U256::from_u64(40)));
}

#[test]
fn checked_sub_borrows_from_high_limb() {
    let a = U256 { hi: 1, lo: 0 };
    let b = U256::from_u64(1);
    assert_eq!(a.checked_sub(&b), Some(U256 { hi: 0, lo: u128::MAX }));
}

#[test]
fn checked_sub_underflow_is_none() {
    let a = U256::from_u64(1);
    let b = U256::from_u64(2);
    assert_eq!(a.checked_sub(&b), None);
}

#[test]
fn lt_compares_values() {
    let small = U256 { hi: 0, lo: u128::MAX };
    let big = U256 { hi: 1, lo: 0 };
    assert!(small.lt(&big));
    assert!(!big.lt(&small));
    assert!(!big.lt(&big));
    assert!(big.ge(&small));
}
