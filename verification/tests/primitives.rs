use transition_check::primitives::{Address, B256, U256};

#[test]
fn saturating_conversion_clamps() {
    assert_eq!(U256::from_u64(21000).saturating_to_u64(), 21000);
    assert_eq!(U256::from_limbs([5, 1, 0, 0]).saturating_to_u64(), u64::MAX);
    assert_eq!(U256::from_limbs([5, 0, 0, 1]).saturating_to_u64(), u64::MAX);
    assert_eq!(U256::from_limbs([u64::MAX, 0, 0, 0]).saturating_to_u64(), u64::MAX);
}

#[test]
fn zero_and_small_values() {
    assert!(U256::zero().is_zero());
    assert!(U256::from_u64(0).is_zero());
    assert!(!U256::from_u64(1).is_zero());
    assert!(!U256::from_limbs([0, 0, 0, 1]).is_zero());
    assert_eq!(U256::zero(), U256::from_limbs([0; 4]));
    assert_eq!(U256::from_u64(9).limbs, [9, 0, 0, 0]);
}

#[test]
fn comparison_is_by_value() {
    assert!(U256::from_u64(5).same_as(&U256::from_limbs([5, 0, 0, 0])));
    assert!(!U256::from_u64(5).same_as(&U256::from_limbs([5, 0, 1, 0])));
    let mut bytes = [7u8; 20];
    assert!(Address::new(bytes).same_as(&Address::new([7u8; 20])));
    bytes[19] = 8;
    assert!(!Address::new(bytes).same_as(&Address::new([7u8; 20])));
    let mut word = [1u8; 32];
    assert!(B256::new(word).same_as(&B256::new([1u8; 32])));
    word[0] = 0;
    assert!(!B256::new(word).same_as(&B256::new([1u8; 32])));
}

#[test]
fn checked_narrowing() {
    assert_eq!(U256::from_u64(0).to_u64(), Some(0));
    assert_eq!(U256::from_u64(u64::MAX).to_u64(), Some(u64::MAX));
    assert_eq!(U256::from_limbs([7, 1, 0, 0]).to_u64(), None);
    assert_eq!(U256::from_limbs([7, 0, 1, 0]).to_u64(), None);
    assert_eq!(U256::from_limbs([7, 0, 0, 1]).to_u64(), None);
}
