//! Decimal amounts, held as a 96-bit signed mantissa and a decimal scale
//! (the representation of `rust_decimal::Decimal`), with the arithmetic
//! of `rust_decimal` behind trusted wrappers.

use vstd::prelude::*;
use rust_decimal::Decimal;
use crate::text::decimal_text;
use vstd::std_specs::cmp::PartialEqSpecImpl;

verus! {

/// One more than the largest mantissa magnitude a `Decimal` can hold (2^96).
pub open spec fn mantissa_bound() -> int {
    0x1_0000_0000_0000_0000_0000_0000int
}

/// The largest scale a `Decimal` can hold.
pub open spec fn max_scale() -> nat {
    28
}

/// 10 to the power `n`.
pub open spec fn pow10(n: nat) -> int
    decreases n,
{
    if n == 0 {
        1
    } else {
        10 * pow10((n - 1) as nat)
    }
}

/// The mathematical content of an amount: the number `mantissa / 10^scale`,
/// together with the scale it is written at.
pub struct AmountModel {
    pub mantissa: int,
    pub scale: nat,
}

impl AmountModel {
    /// The mantissa and scale are within what a `Decimal` can hold.
    pub open spec fn wf(self) -> bool {
        -mantissa_bound() < self.mantissa < mantissa_bound() && self.scale <= max_scale()
    }

    /// `self` and `other` denote the same number.
    pub open spec fn same_value(self, other: AmountModel) -> bool {
        self.mantissa * pow10(other.scale) == other.mantissa * pow10(self.scale)
    }
}

/// The model of `mantissa` written at `scale`.
pub open spec fn model(mantissa: int, scale: nat) -> AmountModel {
    AmountModel { mantissa, scale }
}

/// The negation of `x`, written at the same scale.
pub open spec fn neg_model(x: AmountModel) -> AmountModel {
    model(-x.mantissa, x.scale)
}

/// The negation of an optional amount.
pub open spec fn neg_opt(o: Option<AmountModel>) -> Option<AmountModel> {
    match o {
        Some(x) => Some(neg_model(x)),
        None => None,
    }
}

/// `x` rounded to `dp` decimal places, ties to even, the magnitude rounded
/// and the sign kept; an amount with at most `dp` places is left as it is.
pub open spec fn round_dp_model(x: AmountModel, dp: nat) -> AmountModel {
    if x.scale <= dp {
        x
    } else {
        let d = pow10((x.scale - dp) as nat);
        let mag = if x.mantissa < 0 { -x.mantissa } else { x.mantissa };
        let q = mag / d;
        let r = mag % d;
        let up = r > d / 2 || (r == d / 2 && q % 2 == 1);
        let q2 = if up { q + 1 } else { q };
        model(if x.mantissa < 0 { -q2 } else { q2 }, dp)
    }
}

/// Rounding keeps the sign apart: rounding `-x` gives the negation of
/// rounding `x`.
pub proof fn lemma_round_dp_negation(x: AmountModel, dp: nat)
    ensures
        round_dp_model(neg_model(x), dp) == neg_model(round_dp_model(x, dp)),
{
    if x.scale > dp {
        let k = (x.scale - dp) as nat;
        lemma_pow10_positive(k);
        let d = pow10(k);
        if x.mantissa == 0 {
            assert(0int / d == 0) by (nonlinear_arith) requires d > 0;
            assert(0int % d == 0) by (nonlinear_arith) requires d > 0;
        }
    }
}

/// `10^n` is positive.
pub proof fn lemma_pow10_positive(n: nat)
    ensures
        pow10(n) > 0,
    decreases n,
{
    if n > 0 {
        lemma_pow10_positive((n - 1) as nat);
    }
}

/// The exact difference `a - b` written at the larger of the two scales,
/// when both operands and the difference fit a `Decimal` at that scale.
pub open spec fn exact_sub_fits(a: AmountModel, b: AmountModel) -> bool {
    let s = if a.scale >= b.scale { a.scale } else { b.scale };
    let x = a.mantissa * pow10((s - a.scale) as nat);
    let y = b.mantissa * pow10((s - b.scale) as nat);
    &&& -mantissa_bound() < x < mantissa_bound()
    &&& -mantissa_bound() < y < mantissa_bound()
    &&& -mantissa_bound() < x - y < mantissa_bound()
}

pub open spec fn exact_sub(a: AmountModel, b: AmountModel) -> AmountModel {
    let s = if a.scale >= b.scale { a.scale } else { b.scale };
    model(a.mantissa * pow10((s - a.scale) as nat) - b.mantissa * pow10((s - b.scale) as nat), s)
}

/// `a + b == c` as numbers, whatever scales they are written at.
pub open spec fn sum_is(a: AmountModel, b: AmountModel, c: AmountModel) -> bool {
    a.mantissa * pow10(b.scale) * pow10(c.scale) + b.mantissa * pow10(a.scale) * pow10(c.scale)
        == c.mantissa * pow10(a.scale) * pow10(b.scale)
}

/// `10^(a + b) = 10^a * 10^b`.
pub proof fn lemma_pow10_split(a: nat, b: nat)
    ensures
        pow10(a + b) == pow10(a) * pow10(b),
    decreases a,
{
    if a > 0 {
        let a1 = (a - 1) as nat;
        lemma_pow10_split(a1, b);
        assert((a1 + b) as nat == (a + b - 1) as nat);
        let p = pow10(a1);
        let q = pow10(b);
        assert(pow10(a + b) == 10 * pow10((a1 + b) as nat));
        assert(pow10(a) == 10 * p);
        assert(10 * (p * q) == (10 * p) * q) by (nonlinear_arith);
    } else {
        assert(pow10(0) == 1);
        assert((0 + b) as nat == b);
    }
}

/// The difference `d` that `Decimal::checked_sub` gives for `a - b` when
/// the exact difference fits (see `decimal_checked_sub_call`) adds back up:
/// `d + b == a`.
pub proof fn lemma_difference_adds_up(a: AmountModel, b: AmountModel, d: AmountModel)
    requires
        exact_sub_fits(a, b),
        a.mantissa == 0 ==> d == model(-b.mantissa, b.scale),
        (a.mantissa != 0 && b.mantissa == 0) ==> d == a,
        (a.mantissa != 0 && b.mantissa != 0) ==> d == exact_sub(a, b),
    ensures
        sum_is(d, b, a),
{
    let p = pow10(a.scale);
    let q = pow10(b.scale);
    if a.mantissa == 0 {
        assert(-b.mantissa * q * p + b.mantissa * q * p == 0) by (nonlinear_arith);
    } else if b.mantissa == 0 {
        assert(a.mantissa * q * p == a.mantissa * p * q) by (nonlinear_arith);
    } else {
        let s = if a.scale >= b.scale { a.scale } else { b.scale };
        let pa = pow10((s - a.scale) as nat);
        let pb = pow10((s - b.scale) as nat);
        let ps = pow10(s);
        lemma_pow10_split((s - a.scale) as nat, a.scale);
        lemma_pow10_split((s - b.scale) as nat, b.scale);
        assert(((s - a.scale) as nat + a.scale) as nat == s);
        assert(((s - b.scale) as nat + b.scale) as nat == s);
        let x = a.mantissa * pa;
        let y = b.mantissa * pb;
        assert(d == model(x - y, s));
        assert((x - y) * q * p == x * q * p - y * q * p) by (nonlinear_arith);
        assert(x * q * p == a.mantissa * ps * q) by (nonlinear_arith)
            requires
                x == a.mantissa * pa,
                ps == pa * p;
        assert(y * q * p == b.mantissa * ps * p) by (nonlinear_arith)
            requires
                y == b.mantissa * pb,
                ps == pb * q;
    }
}

/// What `Decimal::checked_mul` returns for the two numbers.
pub uninterp spec fn decimal_checked_mul(a: AmountModel, b: AmountModel) -> Option<AmountModel>;

/// What `Decimal::checked_sub` returns for the two numbers.
pub uninterp spec fn decimal_checked_sub(a: AmountModel, b: AmountModel) -> Option<AmountModel>;

/// What `Decimal::checked_div` returns for the two numbers.
pub uninterp spec fn decimal_checked_div(a: AmountModel, b: AmountModel) -> Option<AmountModel>;

/// `n` zero characters.
pub open spec fn zeros(n: nat) -> Seq<char> {
    Seq::new(n, |i: int| '0')
}

/// The text `Decimal`'s `Display` writes for the number: a `-` for a
/// negative one, the digits of the mantissa's magnitude padded with zeros
/// to more than `scale` digits, and a `.` before the last `scale` of them
/// when the scale is not zero.
#[verifier::opaque]
pub open spec fn decimal_display(a: AmountModel) -> Seq<char> {
    let mag: nat = if a.mantissa < 0 { (-a.mantissa) as nat } else { a.mantissa as nat };
    let d = decimal_text(mag);
    let p = if d.len() <= a.scale { zeros((a.scale + 1 - d.len()) as nat) + d } else { d };
    let whole = p.subrange(0, p.len() - a.scale);
    let text = if a.scale == 0 { p } else { whole + "."@ + p.subrange(p.len() - a.scale, p.len() as int) };
    if a.mantissa < 0 { "-"@ + text } else { text }
}

/// What `Decimal::from_str` parses from the text.
pub uninterp spec fn decimal_from_str(s: Seq<char>) -> Option<AmountModel>;

/// A decimal number `mantissa / 10^scale`, with `|mantissa| < 2^96` and
/// `scale <= 28`, as `rust_decimal::Decimal` holds it.
#[derive(Clone, Copy, Debug)]
pub struct Amount {
    mantissa: i128,
    scale: u32,
}

/// The models of an optional amount.
pub open spec fn opt_model(o: Option<Amount>) -> Option<AmountModel> {
    match o {
        Some(a) => Some(a@),
        None => None,
    }
}

impl View for Amount {
    type V = AmountModel;

    closed spec fn view(&self) -> AmountModel {
        AmountModel { mantissa: self.mantissa as int, scale: self.scale as nat }
    }
}

impl Amount {
    /// Every amount's model is within what a `Decimal` can hold.
    #[verifier::type_invariant]
    pub open spec fn inv(self) -> bool {
        self@.wf()
    }

    /// The amount `num / 10^scale` (`Decimal::new`).
    pub fn new(num: i64, scale: u32) -> (r: Amount)
        requires
            scale <= 28,
        ensures
            r@ == model(num as int, scale as nat),
    {
        Amount { mantissa: num as i128, scale }
    }

    /// The amount `num / 10^scale` when it is representable
    /// (`Decimal::try_from_i128_with_scale`).
    pub fn from_parts(num: i128, scale: u32) -> (r: Option<Amount>)
        ensures
            r is Some <==> (-mantissa_bound() < num < mantissa_bound() && scale <= 28),
            r matches Some(a) ==> a@ == model(num as int, scale as nat),
    {
        if scale <= 28 && num > -0x1_0000_0000_0000_0000_0000_0000i128 && num < 0x1_0000_0000_0000_0000_0000_0000i128 {
            Some(Amount { mantissa: num, scale })
        } else {
            None
        }
    }

    /// Zero, written with no decimal places (`Decimal::ZERO`, the default).
    pub fn zero() -> (r: Amount)
        ensures
            r@ == model(0, 0),
    {
        Amount { mantissa: 0, scale: 0 }
    }

    /// One, written with no decimal places (`Decimal::ONE`).
    pub fn one() -> (r: Amount)
        ensures
            r@ == model(1, 0),
    {
        Amount { mantissa: 1, scale: 0 }
    }

    /// The signed mantissa.
    pub fn mantissa(&self) -> (r: i128)
        ensures
            r as int == self@.mantissa,
    {
        self.mantissa
    }

    /// The number of decimal places.
    pub fn scale(&self) -> (r: u32)
        ensures
            r as nat == self@.scale,
    {
        self.scale
    }

    /// Product, `None` on overflow (`Decimal::checked_mul`). The magnitude
    /// and scale of the product do not depend on the signs, which give the
    /// product's sign: negating `a` negates the product. A product with
    /// `0.10` never overflows: a product too wide for 96 bits is scaled
    /// down a place, which for `10 * m` gives `m` exactly.
    #[verifier::external_body]
    pub(crate) fn decimal_checked_mul_call(a: &Amount, b: &Amount) -> (r: Option<Amount>)
        ensures
            opt_model(r) == decimal_checked_mul(a@, b@),
            opt_model(r) == neg_opt(decimal_checked_mul(neg_model(a@), b@)),
            b@ == model(10, 2) ==> r is Some,
            (b@ == model(10, 2) && a@.mantissa != 0 && a@.scale + 2 <= max_scale()
                && !(-mantissa_bound() < a@.mantissa * 10 < mantissa_bound()))
                ==> opt_model(r) == Some(model(a@.mantissa, a@.scale + 1)),
            (a@.mantissa == 0 || b@.mantissa == 0) ==> opt_model(r) == Some(model(0, 0)),
            (a@.mantissa != 0 && b@.mantissa != 0 && a@.scale + b@.scale <= max_scale()
                && -mantissa_bound() < a@.mantissa * b@.mantissa < mantissa_bound())
                ==> opt_model(r) == Some(model(a@.mantissa * b@.mantissa, a@.scale + b@.scale)),
    {
        let x = Decimal::from_i128_with_scale(a.mantissa, a.scale);
        let y = Decimal::from_i128_with_scale(b.mantissa, b.scale);
        x.checked_mul(y).map(|d| Amount { mantissa: d.mantissa(), scale: d.scale() })
    }

    /// Difference, `None` on overflow (`Decimal::checked_sub`).
    #[verifier::external_body]
    pub(crate) fn decimal_checked_sub_call(a: &Amount, b: &Amount) -> (r: Option<Amount>)
        ensures
            opt_model(r) == decimal_checked_sub(a@, b@),
            a@.mantissa == 0 ==> opt_model(r) == Some(model(-b@.mantissa, b@.scale)),
            (a@.mantissa != 0 && b@.mantissa == 0) ==> opt_model(r) == Some(a@),
            (a@.mantissa != 0 && b@.mantissa != 0 && exact_sub_fits(a@, b@))
                ==> opt_model(r) == Some(exact_sub(a@, b@)),
    {
        let x = Decimal::from_i128_with_scale(a.mantissa, a.scale);
        let y = Decimal::from_i128_with_scale(b.mantissa, b.scale);
        x.checked_sub(y).map(|d| Amount { mantissa: d.mantissa(), scale: d.scale() })
    }

    /// Quotient, `None` on overflow or a zero divisor (`Decimal::checked_div`).
    #[verifier::external_body]
    pub(crate) fn decimal_checked_div_call(a: &Amount, b: &Amount) -> (r: Option<Amount>)
        ensures
            opt_model(r) == decimal_checked_div(a@, b@),
            b@.mantissa == 0 ==> r is None,
            (b@.mantissa != 0 && a@.mantissa == 0) ==> opt_model(r) == Some(model(0, 0)),
    {
        let x = Decimal::from_i128_with_scale(a.mantissa, a.scale);
        let y = Decimal::from_i128_with_scale(b.mantissa, b.scale);
        x.checked_div(y).map(|d| Amount { mantissa: d.mantissa(), scale: d.scale() })
    }

    /// Rounds to `dp` places, ties to even (`Decimal::round_dp`).
    #[verifier::external_body]
    pub(crate) fn decimal_round_dp_call(a: &Amount, dp: u32) -> (r: Amount)
        ensures
            r@ == round_dp_model(a@, dp as nat),
    {
        let d = Decimal::from_i128_with_scale(a.mantissa, a.scale).round_dp(dp);
        Amount { mantissa: d.mantissa(), scale: d.scale() }
    }

    /// Numeric equality (`Decimal`'s `PartialEq`).
    #[verifier::external_body]
    pub(crate) fn decimal_eq_call(a: &Amount, b: &Amount) -> (r: bool)
        ensures
            r == a@.same_value(b@),
    {
        Decimal::from_i128_with_scale(a.mantissa, a.scale) == Decimal::from_i128_with_scale(b.mantissa, b.scale)
    }

    /// The text of the number (`Decimal`'s `Display`).
    #[verifier::external_body]
    pub(crate) fn decimal_display_call(a: &Amount) -> (r: String)
        ensures
            r@ == decimal_display(a@),
    {
        Decimal::from_i128_with_scale(a.mantissa, a.scale).to_string()
    }

    /// The number written in `s` (`Decimal::from_str`).
    #[verifier::external_body]
    pub(crate) fn decimal_from_str_call(s: &str) -> (r: Option<Amount>)
        ensures
            opt_model(r) == decimal_from_str(s@),
    {
        s.parse::<Decimal>().ok().map(|d| Amount { mantissa: d.mantissa(), scale: d.scale() })
    }
}

impl PartialEq for Amount {
    /// Numeric equality: `5` and `5.00` are equal.
    fn eq(&self, other: &Amount) -> (r: bool) {
        Amount::decimal_eq_call(self, other)
    }
}

impl PartialEqSpecImpl for Amount {
    open spec fn obeys_eq_spec() -> bool {
        true
    }

    open spec fn eq_spec(&self, other: &Amount) -> bool {
        self@.same_value(other@)
    }
}

} // verus!
