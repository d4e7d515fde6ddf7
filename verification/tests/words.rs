use eth_call_ledger::amount::SignedAmount;
use eth_call_ledger::text::{
    signed_balance_delta, signed_u256_to_decimal, signed_u256_to_hex, u256_to_decimal, u256_to_hex,
};
use eth_call_ledger::word::U256;

fn word(number: u64) -> U256 {
    U256::from_u64(number)
}

fn largest() -> U256 {
    U256 { limbs: [u64::MAX; 4] }
}

fn amount(negative: bool, magnitude: u64) -> SignedAmount {
    SignedAmount { negative, magnitude: word(magnitude) }
}

#[test]
fn bytes_make_a_word() {
    let mut bytes = [0u8; 32];
    bytes[31] = 0x34;
    bytes[30] = 0x12;
    bytes[0] = 0x80;
    let made = U256::from_be_bytes(bytes);
    assert_eq!(made.limbs, [0x1234, 0, 0, 0x8000_0000_0000_0000]);
    assert_eq!(U256::from_be_bytes([0xff; 32]), largest());
}

#[test]
fn words_are_compared() {
    let high = U256 { limbs: [0, 1, 0, 0] };
    assert!(high.exceeds(&word(u64::MAX)));
    assert!(!word(u64::MAX).exceeds(&high));
    assert!(!high.exceeds(&high));
    assert!(high.same(&high));
    assert!(!high.same(&word(1)));
    assert!(U256::zero().is_zero());
    assert!(!high.is_zero());
}

#[test]
fn sums_and_differences_wrap() {
    assert_eq!(word(u64::MAX).plus(word(1)).limbs, [0, 1, 0, 0]);
    assert_eq!(largest().plus(word(2)), word(1));
    assert_eq!(U256 { limbs: [0, 1, 0, 0] }.minus(word(1)), word(u64::MAX));
    assert_eq!(U256::zero().minus(word(1)), largest());
}

#[test]
fn words_become_numbers_where_they_fit() {
    assert_eq!(word(77).to_usize(), Some(77));
    assert_eq!(word(u64::MAX).to_usize(), Some(u64::MAX as usize));
    assert_eq!(U256 { limbs: [0, 1, 0, 0] }.to_usize(), None);
    assert_eq!(word(77).saturating_to_u64(), 77);
    assert_eq!(U256 { limbs: [5, 1, 0, 0] }.saturating_to_u64(), u64::MAX);
}

#[test]
fn hexadecimal_text_has_no_leading_zeros() {
    assert_eq!(u256_to_hex(word(0)), "0x0");
    assert_eq!(u256_to_hex(word(0xabc)), "0xabc");
    assert_eq!(u256_to_hex(U256 { limbs: [0, 1, 0, 0] }), "0x10000000000000000");
    assert_eq!(u256_to_hex(largest()), format!("0x{}", "f".repeat(64)));
}

#[test]
fn decimal_text_is_exact() {
    assert_eq!(u256_to_decimal(word(0)), "0");
    assert_eq!(u256_to_decimal(word(1_000_000_007)), "1000000007");
    assert_eq!(u256_to_decimal(U256 { limbs: [0, 1, 0, 0] }), "18446744073709551616");
    assert_eq!(
        u256_to_decimal(largest()),
        "115792089237316195423570985008687907853269984665640564039457584007913129639935"
    );
}

#[test]
fn signed_text_has_one_zero() {
    assert_eq!(signed_u256_to_hex(false, word(0)), "0x0");
    assert_eq!(signed_u256_to_hex(true, word(0)), "0x0");
    assert_eq!(signed_u256_to_hex(true, word(255)), "-0xff");
    assert_eq!(signed_u256_to_hex(false, word(255)), "0xff");
    assert_eq!(signed_u256_to_decimal(true, word(0)), "0");
    assert_eq!(signed_u256_to_decimal(true, word(255)), "-255");
    assert_eq!(signed_u256_to_decimal(false, word(255)), "255");
}

#[test]
fn delta_is_what_a_balance_changed_by() {
    assert_eq!(signed_balance_delta(word(10), word(3)), "-7");
    assert_eq!(signed_balance_delta(word(3), word(10)), "7");
    assert_eq!(signed_balance_delta(word(3), word(3)), "0");
    assert_eq!(
        signed_balance_delta(largest(), word(0)),
        "-115792089237316195423570985008687907853269984665640564039457584007913129639935"
    );
}

#[test]
fn gains_and_losses_add_up() {
    let mut sum = SignedAmount::default();
    assert!(sum.is_zero());
    sum.add_positive(word(10));
    sum.add_negative(word(4));
    assert_eq!(sum, amount(false, 6));
    sum.add_negative(word(16));
    assert_eq!(sum, amount(true, 10));
    sum.add_negative(word(5));
    assert_eq!(sum, amount(true, 15));
    sum.add_positive(word(5));
    assert_eq!(sum, amount(true, 10));
    sum.add_positive(word(12));
    assert_eq!(sum, amount(false, 2));
}

#[test]
fn a_change_and_its_opposite_leave_nothing() {
    let mut sum = SignedAmount::default();
    sum.add_negative(word(9));
    sum.add_positive(word(9));
    assert_eq!(sum, SignedAmount::default());
    sum.add_positive(word(9));
    sum.add_negative(word(9));
    assert_eq!(sum, SignedAmount::default());
}

#[test]
fn a_change_of_nothing_changes_nothing() {
    let mut sum = amount(true, 3);
    sum.add_positive(word(0));
    sum.add_negative(word(0));
    assert_eq!(sum, amount(true, 3));
}

#[test]
fn magnitudes_wrap() {
    let mut sum = SignedAmount { negative: true, magnitude: largest() };
    sum.add_negative(word(3));
    assert_eq!(sum, amount(true, 2));
    let mut sum = SignedAmount { negative: false, magnitude: largest() };
    sum.add_positive(word(1));
    assert!(sum.is_zero());
}

#[test]
fn amounts_are_written_in_both_bases() {
    assert_eq!(amount(true, 31).as_string(), "-0x1f");
    assert_eq!(amount(true, 31).as_decimal_string(), "-31");
    assert_eq!(amount(false, 31).as_string(), "0x1f");
    assert_eq!(amount(true, 0).as_string(), "0x0");
}
