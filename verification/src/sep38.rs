//! SEP-38 rate callback: pricing one asset at a fixed 1:1 price less the
//! flat fee, as an indicative or a firm quote.

use vstd::prelude::*;
use crate::amount::{Amount, AmountModel, model, opt_model, round_dp_model, decimal_checked_sub,
    decimal_checked_div, decimal_display, exact_sub, exact_sub_fits, pow10, lemma_pow10_split, sum_is,
    lemma_difference_adds_up};
use crate::fee::{flat_fee, unit_fee_rate, flat_fee_model};
use crate::clock::{Timestamp, rfc3339, rfc3339_text, opt_text, current_time, max_timestamp};
use crate::error::{AppError, bad_request, internal};
use crate::text::str_eq;

verus! {

/// The rate request: quote type (`indicative` or `firm`), the assets and
/// exactly one of the sell or buy amounts.
pub struct RateQuery {
    pub rate_type: String,
    pub sell_asset: String,
    pub buy_asset: String,
    pub sell_amount: Option<Amount>,
    pub buy_amount: Option<Amount>,
    pub context: Option<String>,
}

/// The fee of a quote and the asset it is charged in.
pub struct FeeOut {
    pub total: String,
    pub asset: String,
}

/// A priced quote; a firm quote carries the instant it expires at.
pub struct RateOut {
    pub price: String,
    pub sell_amount: String,
    pub buy_amount: String,
    pub fee: FeeOut,
    pub expires_at: Option<String>,
}

/// The outcome of pricing the amounts of a request.
pub enum Pricing {
    /// Not exactly one of the two amounts was given.
    Ambiguous,
    /// `rust_decimal` reported an overflow on the way.
    Overflow,
    /// The sell amount, the buy amount and the fee between them.
    Priced { sell: AmountModel, buy: AmountModel, fee: AmountModel },
}

/// `1 - 0.10`, the share of the sell amount that is bought.
pub open spec fn net_rate_model() -> AmountModel {
    model(90, 2)
}

pub open spec fn priced_with_fee(sell: AmountModel, buy: AmountModel) -> Pricing {
    match decimal_checked_sub(sell, buy) {
        Some(fee) => Pricing::Priced { sell, buy, fee },
        None => Pricing::Overflow,
    }
}

/// Pricing: given the sell amount, the buyer gets it less the flat fee;
/// given the buy amount, the seller pays it divided by `0.90`, rounded to
/// 7 places. The fee is what the seller pays less what the buyer gets.
pub open spec fn pricing(sell: Option<AmountModel>, buy: Option<AmountModel>) -> Pricing {
    match (sell, buy) {
        (Some(s), None) => match flat_fee_model(s) {
            Some(f) => match decimal_checked_sub(s, f) {
                Some(b) => priced_with_fee(s, b),
                None => Pricing::Overflow,
            },
            None => Pricing::Overflow,
        },
        (None, Some(b)) => match decimal_checked_div(b, net_rate_model()) {
            Some(q) => priced_with_fee(round_dp_model(q, 7), b),
            None => Pricing::Overflow,
        },
        _ => Pricing::Ambiguous,
    }
}

/// A firm quote expires fifteen minutes after `now`.
pub open spec fn firm_expiry(now: Timestamp) -> Option<Seq<char>> {
    if now.secs + 900 <= i64::MAX {
        rfc3339_text(now.secs + 900, now.nanos as int)
    } else {
        None
    }
}

/// The expiry of a firm quote asked for at `now` is an instant `chrono`
/// represents.
pub open spec fn expiry_in_range(now: Timestamp) -> bool {
    0 <= now.secs && now.secs + 900 <= max_timestamp() && now.nanos < 1_000_000_000
}

pub open spec fn ambiguous_amounts_message() -> Seq<char> {
    "exactly one of sell_amount or buy_amount is required"@
}

pub open spec fn out_of_range_message() -> Seq<char> {
    "amount out of range"@
}

pub open spec fn expiry_out_of_range_message() -> Seq<char> {
    "quote expiry out of range"@
}

/// The quote reports the priced amounts as `Decimal` writes them, at a
/// price of `1.0000000`, with the fee in the sell asset.
pub open spec fn rate_out_matches(out: RateOut, sell: AmountModel, buy: AmountModel, fee: AmountModel, sell_asset: Seq<char>) -> bool {
    &&& out.price@ == "1.0000000"@
    &&& out.sell_amount@ == decimal_display(sell)
    &&& out.buy_amount@ == decimal_display(buy)
    &&& out.fee.total@ == decimal_display(fee)
    &&& out.fee.asset@ == sell_asset
}

/// What the rate callback answers to `q` at instant `now`.
pub open spec fn quote_rate_post(q: RateQuery, now: Timestamp, r: Result<RateOut, AppError>) -> bool {
    match pricing(opt_model(q.sell_amount), opt_model(q.buy_amount)) {
        Pricing::Ambiguous => r matches Err(e) && bad_request(e, ambiguous_amounts_message()),
        Pricing::Overflow => r matches Err(e) && internal(e, out_of_range_message()),
        Pricing::Priced { sell, buy, fee } => {
            if q.rate_type@ == "firm"@ {
                match firm_expiry(now) {
                    Some(t) => r matches Ok(out) && rate_out_matches(out, sell, buy, fee, q.sell_asset@)
                        && opt_text(out.expires_at) == Some(t),
                    None => r matches Err(e) && internal(e, expiry_out_of_range_message()) && !expiry_in_range(now),
                }
            } else if q.rate_type@ == "indicative"@ {
                r matches Ok(out) && rate_out_matches(out, sell, buy, fee, q.sell_asset@)
                    && out.expires_at is None
            } else {
                r matches Err(e) && bad_request(e, "unsupported rate type '"@ + q.rate_type@ + "'"@)
            }
        },
    }
}

fn net_rate() -> (r: Amount)
    ensures
        r@ == net_rate_model(),
{
    let one = Amount::one();
    let rate = unit_fee_rate();
    proof {
        assert(pow10(0) == 1);
        assert(pow10(1) == 10);
        assert(pow10(2) == 100);
        assert(exact_sub_fits(one@, rate@));
        assert(exact_sub(one@, rate@) == model(90, 2));
    }
    match Amount::decimal_checked_sub_call(&one, &rate) {
        Some(d) => d,
        None => {
            assert(false);
            Amount::one()
        },
    }
}

fn with_fee(sell: Amount, buy: Amount) -> (r: Result<(Amount, Amount, Amount), AppError>)
    ensures
        match priced_with_fee(sell@, buy@) {
            Pricing::Priced { sell: s, buy: b, fee: f } => r matches Ok(t) && t.0@ == s && t.1@ == b && t.2@ == f,
            _ => r matches Err(e) && internal(e, out_of_range_message()),
        },
        r matches Ok(t) ==> (exact_sub_fits(t.0@, t.1@) ==> sum_is(t.2@, t.1@, t.0@)),
{
    match Amount::decimal_checked_sub_call(&sell, &buy) {
        Some(fee) => {
            proof {
                if exact_sub_fits(sell@, buy@) {
                    lemma_difference_adds_up(sell@, buy@, fee@);
                }
            }
            Ok((sell, buy, fee))
        },
        None => Err(AppError::Internal(String::from_str("amount out of range"))),
    }
}

/// Prices the amounts of a request into (sell, buy, fee).
pub fn price_amounts(sell_amount: Option<Amount>, buy_amount: Option<Amount>) -> (r: Result<(Amount, Amount, Amount), AppError>)
    ensures
        match pricing(opt_model(sell_amount), opt_model(buy_amount)) {
            Pricing::Ambiguous => r matches Err(e) && bad_request(e, ambiguous_amounts_message()),
            Pricing::Overflow => r matches Err(e) && internal(e, out_of_range_message()),
            Pricing::Priced { sell, buy, fee } => r matches Ok(t) && t.0@ == sell && t.1@ == buy && t.2@ == fee,
        },
        r matches Ok(t) ==> (exact_sub_fits(t.0@, t.1@) ==> sum_is(t.2@, t.1@, t.0@)),
{
    match (sell_amount, buy_amount) {
        (Some(sell), None) => {
            let fee = flat_fee(sell);
            match Amount::decimal_checked_sub_call(&sell, &fee) {
                Some(buy) => with_fee(sell, buy),
                None => Err(AppError::Internal(String::from_str("amount out of range"))),
            }
        },
        (None, Some(buy)) => {
            let net = net_rate();
            match Amount::decimal_checked_div_call(&buy, &net) {
                Some(q) => {
                    let sell = Amount::decimal_round_dp_call(&q, 7);
                    with_fee(sell, buy)
                },
                None => Err(AppError::Internal(String::from_str("amount out of range"))),
            }
        },
        _ => Err(AppError::BadRequest(String::from_str("exactly one of sell_amount or buy_amount is required"))),
    }
}

/// The expiry text of a firm quote asked for at `now`.
fn firm_expiry_text(now: Timestamp) -> (r: Option<String>)
    ensures
        opt_text(r) == firm_expiry(now),
        expiry_in_range(now) ==> r is Some,
{
    if now.secs <= i64::MAX - 900 {
        rfc3339(Timestamp { secs: now.secs + 900, nanos: now.nanos })
    } else {
        None
    }
}

/// Answers a rate request at instant `now`: `indicative` quotes carry no
/// expiry, `firm` ones expire fifteen minutes later; any other type is a
/// bad request, as is giving both or neither amount.
pub fn quote_rate(query: &RateQuery, now: Timestamp) -> (r: Result<RateOut, AppError>)
    ensures
        quote_rate_post(*query, now, r),
{
    let (sell, buy, fee) = match price_amounts(query.sell_amount, query.buy_amount) {
        Ok(t) => t,
        Err(e) => return Err(e),
    };
    let expires_at = if str_eq(query.rate_type.as_str(), "firm") {
        match firm_expiry_text(now) {
            Some(t) => Some(t),
            None => return Err(AppError::Internal(String::from_str("quote expiry out of range"))),
        }
    } else if str_eq(query.rate_type.as_str(), "indicative") {
        None
    } else {
        let mut msg = String::from_str("unsupported rate type '");
        msg.append(query.rate_type.as_str());
        msg.append("'");
        return Err(AppError::BadRequest(msg));
    };
    Ok(RateOut {
        price: String::from_str("1.0000000"),
        sell_amount: Amount::decimal_display_call(&sell),
        buy_amount: Amount::decimal_display_call(&buy),
        fee: FeeOut { total: Amount::decimal_display_call(&fee), asset: query.sell_asset.clone() },
        expires_at,
    })
}

/// The rate callback: quotes `query` at the current instant. What it
/// answers is what `quote_rate` answers at the instant the clock gave.
pub fn get_rate(query: &RateQuery) -> (r: Result<RateOut, AppError>)
    ensures
        exists|now: Timestamp| quote_rate_post(*query, now, r) && 0 <= now.secs <= max_timestamp()
            && now.nanos < 1_000_000_000,
{
    let now = current_time();
    quote_rate(query, now)
}

/// Law: when the subtractions are exact, the fee of a sell-side quote is
/// the flat fee of the sell amount: `sell - (sell - fee) = fee`.
pub proof fn lemma_sell_side_fee_is_flat_fee(sell: AmountModel, fee: AmountModel)
    requires
        exact_sub_fits(sell, fee),
        exact_sub_fits(sell, exact_sub(sell, fee)),
    ensures
        exact_sub(sell, exact_sub(sell, fee)).same_value(fee),
{
    let s = if sell.scale >= fee.scale { sell.scale } else { fee.scale };
    let x = sell.mantissa * pow10((s - sell.scale) as nat);
    let f = fee.mantissa * pow10((s - fee.scale) as nat);
    let b = exact_sub(sell, fee);
    assert(b == model(x - f, s));
    let r = exact_sub(sell, b);
    assert(pow10(0) == 1);
    assert(((s - s) as nat) == 0);
    assert(r == model(x - (x - f) * pow10(0), s));
    assert(r.mantissa == f);
    lemma_pow10_split(fee.scale, (s - fee.scale) as nat);
    assert((fee.scale + (s - fee.scale) as nat) as nat == s);
    let p = pow10(fee.scale);
    let q = pow10((s - fee.scale) as nat);
    assert(f * p == fee.mantissa * (p * q)) by (nonlinear_arith)
        requires f == fee.mantissa * q;
}

/// The same error: same kind, same message.
pub open spec fn same_error(a: AppError, b: AppError) -> bool {
    match (a, b) {
        (AppError::BadRequest(m), AppError::BadRequest(n)) => m@ == n@,
        (AppError::NotAuthorized(m), AppError::NotAuthorized(n)) => m@ == n@,
        (AppError::NotFound(m), AppError::NotFound(n)) => m@ == n@,
        (AppError::Internal(m), AppError::Internal(n)) => m@ == n@,
        _ => false,
    }
}

/// Law: `indicative` and `firm` quotes are the same computation. For the
/// same amounts and sell asset, asked at an instant whose expiry `chrono`
/// represents, both are answered or both refused with the same error; when
/// answered they carry the same price, amounts and fee, and only the firm
/// one carries an expiry, fifteen minutes after the instant.
pub proof fn lemma_firm_and_indicative_agree(
    firm: RateQuery,
    indicative: RateQuery,
    firm_now: Timestamp,
    indicative_now: Timestamp,
    firm_answer: Result<RateOut, AppError>,
    indicative_answer: Result<RateOut, AppError>,
)
    requires
        firm.rate_type@ == "firm"@,
        indicative.rate_type@ == "indicative"@,
        opt_model(firm.sell_amount) == opt_model(indicative.sell_amount),
        opt_model(firm.buy_amount) == opt_model(indicative.buy_amount),
        firm.sell_asset@ == indicative.sell_asset@,
        expiry_in_range(firm_now),
        quote_rate_post(firm, firm_now, firm_answer),
        quote_rate_post(indicative, indicative_now, indicative_answer),
    ensures
        firm_answer is Ok <==> indicative_answer is Ok,
        firm_answer matches Err(a) ==> (indicative_answer matches Err(b) && same_error(a, b)),
        indicative_answer matches Ok(i) ==> (firm_answer matches Ok(f) && {
            &&& f.price@ == i.price@
            &&& f.sell_amount@ == i.sell_amount@
            &&& f.buy_amount@ == i.buy_amount@
            &&& f.fee.total@ == i.fee.total@
            &&& f.fee.asset@ == i.fee.asset@
            &&& opt_text(f.expires_at) == firm_expiry(firm_now)
            &&& f.expires_at is Some
            &&& i.expires_at is None
        }),
{
    reveal_strlit("firm");
    reveal_strlit("indicative");
    assert("indicative"@ != "firm"@) by {
        assert("indicative"@[0] != "firm"@[0]);
    }
}

} // verus!
