//! The anchor's flat 10% fee.

use vstd::prelude::*;
use crate::amount::{Amount, AmountModel, model, round_dp_model, decimal_checked_mul, opt_model, max_scale, mantissa_bound,
    pow10, neg_model, neg_opt, lemma_round_dp_negation};

verus! {

/// Ten percent, written as `0.10`.
pub open spec fn fee_rate_model() -> AmountModel {
    model(10, 2)
}

/// The fee on `amount`: `amount * 0.10` rounded to 7 decimal places, or
/// `None` when `rust_decimal` reports the product as overflowing.
pub open spec fn flat_fee_model(amount: AmountModel) -> Option<AmountModel> {
    match decimal_checked_mul(amount, fee_rate_model()) {
        Some(p) => Some(round_dp_model(p, 7)),
        None => None,
    }
}

/// The product `amount * 0.10` is exact: both factors are non-zero, the
/// scale stays within 28 and the mantissa within 96 bits.
pub open spec fn fee_product_exact(amount: AmountModel) -> bool {
    amount.mantissa != 0 && amount.scale + 2 <= max_scale()
        && -mantissa_bound() < amount.mantissa * 10 < mantissa_bound()
}

fn fee_rate() -> (r: Amount)
    ensures
        r@ == fee_rate_model(),
{
    Amount::new(10, 2)
}

/// Flat 10% fee, rounded to 7 decimal places (ties to even).
pub fn flat_fee(amount: Amount) -> (r: Amount)
    ensures
        Some(r@) == flat_fee_model(amount@),
        r@.scale <= 7,
        amount@.mantissa == 0 ==> r@ == model(0, 0),
        fee_product_exact(amount@) ==> r@ == round_dp_model(model(amount@.mantissa * 10, amount@.scale + 2), 7),
        amount@.scale <= 6 ==> r@.same_value(model(amount@.mantissa, amount@.scale + 1)),
        flat_fee_model(neg_model(amount@)) == Some(neg_model(r@)),
{
    let rate = fee_rate();
    let product = Amount::decimal_checked_mul_call(&amount, &rate);
    match product {
        Some(p) => {
            let r = Amount::decimal_round_dp_call(&p, 7);
            proof {
                assert(decimal_checked_mul(neg_model(amount@), fee_rate_model()) == Some(neg_model(p@)));
                lemma_round_dp_negation(p@, 7);
                if amount@.scale <= 6 {
                    if fee_product_exact(amount@) {
                        lemma_fee_is_a_tenth(amount@);
                        assert(r@ == round_dp_model(model(amount@.mantissa * 10, amount@.scale + 2), 7));
                    } else if amount@.mantissa == 0 {
                        assert(p@ == model(0, 0));
                        assert(r@ == model(0, 0));
                        let q = pow10((amount@.scale + 1) as nat);
                        assert(0 * q == 0 * pow10(0)) by (nonlinear_arith);
                    } else {
                        assert(p@ == model(amount@.mantissa, amount@.scale + 1));
                        assert(r@ == p@);
                        let q = pow10((amount@.scale + 1) as nat);
                        assert(amount@.mantissa * q == amount@.mantissa * q);
                    }
                }
            }
            r
        },
        None => {
            assert(false);
            Amount::zero()
        },
    }
}

/// The fee rate itself, `flat_fee(1)`, is exactly `0.10`.
pub fn unit_fee_rate() -> (r: Amount)
    ensures
        r@ == fee_rate_model(),
{
    flat_fee(Amount::one())
}

/// Law: when the product is exact and the amount has at most 6 places,
/// the fee is exactly a tenth of the amount: no rounding happens.
pub proof fn lemma_fee_is_a_tenth(amount: AmountModel)
    requires
        fee_product_exact(amount),
        amount.scale <= 6,
    ensures
        round_dp_model(model(amount.mantissa * 10, amount.scale + 2), 7).same_value(
            model(amount.mantissa, amount.scale + 1)),
{
    let m = amount.mantissa;
    let s = amount.scale;
    let f = round_dp_model(model(m * 10, s + 2), 7);
    assert(pow10((s + 2) as nat) == 10 * pow10((s + 1) as nat));
    if s + 2 <= 7 {
        assert(f == model(m * 10, s + 2));
        assert((m * 10) * pow10((s + 1) as nat) == m * pow10((s + 2) as nat)) by (nonlinear_arith)
            requires pow10((s + 2) as nat) == 10 * pow10((s + 1) as nat);
    } else {
        assert(s == 6);
        assert(pow10(0) == 1);
        assert(pow10(1) == 10);
        assert(((s + 2) - 7) as nat == 1);
        let mag = if m * 10 < 0 { -(m * 10) } else { m * 10 };
        let mm = if m < 0 { -m } else { m };
        assert(mag == mm * 10);
        assert(mag / 10 == mm && mag % 10 == 0) by (nonlinear_arith) requires mag == mm * 10, mm >= 0;
        assert(f == model(m, 7));
    }
}

/// Law: every fee has at most seven decimal places.
pub proof fn lemma_fee_has_seven_places(amount: AmountModel)
    requires
        flat_fee_model(amount) is Some,
    ensures
        flat_fee_model(amount).unwrap().scale <= 7,
{
}

} // verus!
