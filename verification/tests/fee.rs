use anchor_rust::amount::Amount;
use anchor_rust::fee::{flat_fee, unit_fee_rate};

#[test]
fn ten_percent_of_fifty_is_five() {
    assert_eq!(flat_fee(Amount::new(50, 0)), Amount::new(500, 2));
}

#[test]
fn rounds_to_seven_decimal_places() {
    let fee = flat_fee(Amount::new(1, 7));
    assert!(fee.scale() <= 7);
}

#[test]
fn fee_keeps_representation_of_exact_product() {
    let fee = flat_fee(Amount::new(50, 0));
    assert_eq!(fee.mantissa(), 500);
    assert_eq!(fee.scale(), 2);
}

#[test]
fn fee_rounds_half_to_even() {
    // 0.0000005 * 0.10 = 0.000000050 -> 0.0000000 (tie, even)
    let fee = flat_fee(Amount::new(5, 7));
    assert_eq!(fee.mantissa(), 0);
    assert_eq!(fee.scale(), 7);
    // 0.0000015 * 0.10 = 0.000000150 -> 0.0000002 (above half)
    let fee = flat_fee(Amount::new(15, 7));
    assert_eq!(fee.mantissa(), 2);
    assert_eq!(fee.scale(), 7);
    // 0.0000025 * 0.10 = 0.000000250 -> 0.0000002 (tie, even)
    let fee = flat_fee(Amount::new(25, 7));
    assert_eq!(fee.mantissa(), 2);
    // 0.0000035 * 0.10 = 0.000000350 -> 0.0000004 (tie, odd rounds up)
    let fee = flat_fee(Amount::new(35, 7));
    assert_eq!(fee.mantissa(), 4);
}

#[test]
fn fee_of_negative_and_zero() {
    assert_eq!(flat_fee(Amount::new(-50, 0)), Amount::new(-5, 0));
    let zero = flat_fee(Amount::new(0, 3));
    assert_eq!(zero.mantissa(), 0);
    assert_eq!(zero.scale(), 0);
}

#[test]
fn unit_rate_is_ten_percent() {
    let r = unit_fee_rate();
    assert_eq!(r.mantissa(), 10);
    assert_eq!(r.scale(), 2);
}

#[test]
fn fee_of_the_widest_amounts_is_an_exact_tenth() {
    let big = (1i128 << 96) - 1;
    let fee = flat_fee(Amount::from_parts(big, 0).unwrap());
    assert_eq!((fee.mantissa(), fee.scale()), (big, 1));
    let fee = flat_fee(Amount::from_parts(-big, 6).unwrap());
    assert_eq!((fee.mantissa(), fee.scale()), (-big, 7));
}

#[test]
fn amount_equality_is_numeric() {
    assert_eq!(Amount::new(5, 0), Amount::new(500, 2));
    assert_ne!(Amount::new(5, 0), Amount::new(501, 2));
}

#[test]
fn amount_from_parts_bounds() {
    assert!(Amount::from_parts(1, 29).is_none());
    assert!(Amount::from_parts((1i128 << 96) - 1, 0).is_some());
    assert!(Amount::from_parts(1i128 << 96, 0).is_none());
    assert!(Amount::from_parts(-((1i128 << 96) - 1), 28).is_some());
}

#[test]
fn fee_is_a_tenth_up_to_six_places_and_keeps_the_sign() {
    assert_eq!(flat_fee(Amount::new(1234567, 6)), Amount::new(1234567, 7));
    assert_eq!(flat_fee(Amount::new(5, 0)), Amount::new(5, 1));
    for (m, sc) in [(123i64, 2u32), (1, 9), (15, 8), (25, 8), (987654321, 4)] {
        let pos = flat_fee(Amount::new(m, sc));
        let neg = flat_fee(Amount::new(-m, sc));
        assert_eq!((neg.mantissa(), neg.scale()), (-pos.mantissa(), pos.scale()));
    }
}
