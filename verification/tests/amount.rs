use cli_wallet::amount::U256;
use cli_wallet::error::DecStrError;

#[test]
fn zero_from_dec_str() {
    assert_eq!(U256::from_dec_str("0"), Ok(U256 { w0: 0, w1: 0, w2: 0, w3: 0 }));
}

#[test]
fn empty_string_is_zero() {
    assert_eq!(U256::from_dec_str(""), Ok(U256::zero()));
}

#[test]
fn small_value() {
    assert_eq!(U256::from_dec_str("100"), Ok(U256 { w0: 100, w1: 0, w2: 0, w3: 0 }));
}

#[test]
fn largest_one_limb_value() {
    assert_eq!(
        U256::from_dec_str("18446744073709551615"),
        Ok(U256 { w0: u64::MAX, w1: 0, w2: 0, w3: 0 })
    );
}

#[test]
fn value_crosses_into_second_limb() {
    assert_eq!(
        U256::from_dec_str("18446744073709551616"),
        Ok(U256 { w0: 0, w1: 1, w2: 0, w3: 0 })
    );
}

#[test]
fn largest_256_bit_value() {
    let s = "115792089237316195423570985008687907853269984665640564039457584007913129639935";
    assert_eq!(
        U256::from_dec_str(s),
        Ok(U256 { w0: u64::MAX, w1: u64::MAX, w2: u64::MAX, w3: u64::MAX })
    );
}

#[test]
fn first_value_past_256_bits() {
    let s = "115792089237316195423570985008687907853269984665640564039457584007913129639936";
    assert_eq!(U256::from_dec_str(s), Err(DecStrError::InvalidLength));
}

#[test]
fn non_digit_reports_invalid_character() {
    assert_eq!(U256::from_dec_str("12x"), Err(DecStrError::InvalidCharacter));
}

#[test]
fn leading_non_digit_reports_invalid_character() {
    assert_eq!(U256::from_dec_str("-5"), Err(DecStrError::InvalidCharacter));
}

#[test]
fn overflow_before_non_digit_reports_invalid_length() {
    let s = "115792089237316195423570985008687907853269984665640564039457584007913129639936x";
    assert_eq!(U256::from_dec_str(s), Err(DecStrError::InvalidLength));
}

#[test]
fn leading_zeros_are_accepted() {
    assert_eq!(U256::from_dec_str("0007"), Ok(U256 { w0: 7, w1: 0, w2: 0, w3: 0 }));
}
