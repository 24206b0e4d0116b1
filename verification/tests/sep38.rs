use anchor_rust::amount::Amount;
use anchor_rust::clock::Timestamp;
use anchor_rust::error::AppError;
use anchor_rust::sep38::{get_rate, price_amounts, quote_rate, RateQuery};

fn query(rate_type: &str, sell: Option<Amount>, buy: Option<Amount>) -> RateQuery {
    RateQuery {
        rate_type: rate_type.to_string(),
        sell_asset: "iso4217:USD".to_string(),
        buy_asset: "stellar:TEST:GX".to_string(),
        sell_amount: sell,
        buy_amount: buy,
        context: Some("sep31".to_string()),
    }
}

#[test]
fn sell_side_indicative_quote() {
    let q = query("indicative", Some(Amount::new(100, 0)), None);
    let out = quote_rate(&q, Timestamp { secs: 0, nanos: 0 }).ok().unwrap();
    assert_eq!(out.price, "1.0000000");
    assert_eq!(out.sell_amount, "100");
    assert_eq!(out.buy_amount, "90.00");
    assert_eq!(out.fee.total, "10.00");
    assert_eq!(out.fee.asset, "iso4217:USD");
    assert!(out.expires_at.is_none());
}

#[test]
fn buy_side_quote_divides_by_net_rate() {
    let q = query("indicative", None, Some(Amount::new(90, 0)));
    let out = quote_rate(&q, Timestamp { secs: 0, nanos: 0 }).ok().unwrap();
    assert_eq!(out.sell_amount, "100");
    assert_eq!(out.buy_amount, "90");
    assert_eq!(out.fee.total, "10");
    let (sell, buy, fee) = price_amounts(None, Some(Amount::new(1, 0))).ok().unwrap();
    // 1 / 0.9 rounded to 7 places
    assert_eq!(sell, Amount::new(11111111, 7));
    assert_eq!(buy, Amount::new(1, 0));
    assert_eq!(fee, Amount::new(1111111, 7));
}

#[test]
fn firm_quote_expires_fifteen_minutes_later() {
    let q = query("firm", Some(Amount::new(100, 0)), None);
    let out = quote_rate(&q, Timestamp { secs: 1_700_000_000, nanos: 0 }).ok().unwrap();
    assert_eq!(out.expires_at.as_deref(), Some("2023-11-14T22:28:20+00:00"));
}

#[test]
fn firm_quote_from_the_clock_has_an_expiry() {
    let q = query("firm", Some(Amount::new(100, 0)), None);
    assert!(get_rate(&q).ok().unwrap().expires_at.is_some());
}

#[test]
fn exactly_one_amount_is_required() {
    for (s, b) in [(None, None), (Some(Amount::new(1, 0)), Some(Amount::new(1, 0)))] {
        match quote_rate(&query("indicative", s, b), Timestamp { secs: 0, nanos: 0 }) {
            Err(AppError::BadRequest(m)) => assert_eq!(m, "exactly one of sell_amount or buy_amount is required"),
            _ => panic!("expected a bad request"),
        }
    }
}

#[test]
fn unsupported_rate_type_is_rejected() {
    match quote_rate(&query("bogus", Some(Amount::new(1, 0)), None), Timestamp { secs: 0, nanos: 0 }) {
        Err(AppError::BadRequest(m)) => assert_eq!(m, "unsupported rate type 'bogus'"),
        _ => panic!("expected a bad request"),
    }
}

#[test]
fn expiry_beyond_the_clock_range_is_an_internal_error() {
    match quote_rate(&query("firm", Some(Amount::new(1, 0)), None), Timestamp { secs: i64::MAX - 10, nanos: 0 }) {
        Err(AppError::Internal(m)) => assert_eq!(m, "quote expiry out of range"),
        _ => panic!("expected an internal error"),
    }
}

#[test]
fn firm_and_indicative_quotes_agree() {
    for (s, b) in [(Some(Amount::new(12345, 3)), None), (None, Some(Amount::new(77, 1)))] {
        let now = Timestamp { secs: 1_000, nanos: 5 };
        let firm = quote_rate(&query("firm", s, b), now).ok().unwrap();
        let indicative = quote_rate(&query("indicative", s, b), now).ok().unwrap();
        assert_eq!(firm.price, indicative.price);
        assert_eq!(firm.sell_amount, indicative.sell_amount);
        assert_eq!(firm.buy_amount, indicative.buy_amount);
        assert_eq!(firm.fee.total, indicative.fee.total);
        assert_eq!(firm.fee.asset, indicative.fee.asset);
        assert!(firm.expires_at.is_some());
        assert!(indicative.expires_at.is_none());
    }
}
