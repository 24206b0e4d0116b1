use anchor_rust::amount::Amount;
use anchor_rust::error::AppError;
use anchor_rust::event::{
    amount_in_stellar, memo_text, plan_sep24_created, plan_sep24_created_with, plan_sep31_created,
    plan_sep31_created_with, route_event, EventAction, EventAmount, EventPayload, EventRequest,
    EventTransaction,
};
use anchor_rust::text::parse_u64;

fn event_tx(sep: u8, kind: &str) -> EventTransaction {
    EventTransaction {
        platform_transaction_id: "tx-1".to_string(),
        sep,
        kind: kind.to_string(),
        status: "incomplete".to_string(),
        account: Some("GWALLET".to_string()),
        memo: Some("77".to_string()),
        memo_type: Some("id".to_string()),
        asset_code: None,
        amount_in: Some(EventAmount { amount: Amount::new(1005, 1), asset: None }),
        amount_out: None,
        fee_total: None,
        sender_id: Some("sender".to_string()),
        receiver_id: Some("receiver".to_string()),
        started_at: None,
    }
}

fn request(event_type: &str, tx: Option<EventTransaction>) -> EventRequest {
    EventRequest { event_type: event_type.to_string(), payload: EventPayload { transaction: tx } }
}

#[test]
fn created_events_are_routed_by_sep() {
    match route_event(request("transaction_created", Some(event_tx(24, "deposit")))) {
        EventAction::Sep24Created(t) => assert_eq!(t.platform_transaction_id, "tx-1"),
        _ => panic!("expected a SEP-24 creation"),
    }
    match route_event(request("transaction_created", Some(event_tx(31, "receive")))) {
        EventAction::Sep31Created(t) => assert_eq!(t.sep, 31),
        _ => panic!("expected a SEP-31 creation"),
    }
}

#[test]
fn other_events_are_ignored() {
    assert!(matches!(route_event(request("transaction_created", Some(event_tx(6, "deposit")))), EventAction::Ignore));
    assert!(matches!(route_event(request("transaction_created", None)), EventAction::Ignore));
    assert!(matches!(
        route_event(request("transaction_status_changed", Some(event_tx(24, "deposit")))),
        EventAction::Ignore
    ));
    assert!(matches!(route_event(request("customer_status_changed", None)), EventAction::Ignore));
    assert!(matches!(route_event(request("something_else", Some(event_tx(31, "receive")))), EventAction::Ignore));
}

#[test]
fn memo_is_draw_plus_one() {
    assert_eq!(memo_text(0), "1");
    assert_eq!(memo_text(41), "42");
    assert_eq!(memo_text(u32::MAX), "4294967296");
}

#[test]
fn sep24_withdrawal_gets_memo_and_destination() {
    let plan = plan_sep24_created_with(&event_tx(24, "withdrawal"), "TEST", "GDIST", 41).ok().unwrap();
    assert_eq!(plan.record.kind, "withdrawal");
    assert_eq!(plan.record.account, "GWALLET");
    assert_eq!(plan.record.asset_code, "TEST");
    assert!(plan.record.memo.is_none());
    assert!(plan.record.memo_type.is_none());
    assert_eq!(plan.record.withdraw_memo.as_deref(), Some("42"));
    let amount = plan.record.amount_in.unwrap();
    assert_eq!((amount.mantissa(), amount.scale()), (1005, 1));
    let d = plan.destination.unwrap();
    assert_eq!(d.transaction_id, "tx-1");
    assert_eq!(d.destination_account, "GDIST");
    assert_eq!(d.memo, "42");
    assert_eq!(d.memo_type, "id");
    assert_eq!(d.amount_in, "100.5");
}

#[test]
fn sep24_withdrawal_without_amount_sends_empty_amount() {
    let mut tx = event_tx(24, "withdrawal");
    tx.amount_in = None;
    let plan = plan_sep24_created_with(&tx, "TEST", "GDIST", 0).ok().unwrap();
    assert!(plan.record.amount_in.is_none());
    assert_eq!(plan.destination.unwrap().amount_in, "");
}

#[test]
fn sep24_deposit_keeps_wallet_memo() {
    let mut tx = event_tx(24, "deposit");
    tx.asset_code = Some("USDC".to_string());
    let plan = plan_sep24_created_with(&tx, "TEST", "GDIST", 5).ok().unwrap();
    assert_eq!(plan.record.kind, "deposit");
    assert_eq!(plan.record.asset_code, "USDC");
    assert_eq!(plan.record.memo.as_deref(), Some("77"));
    assert_eq!(plan.record.memo_type.as_deref(), Some("id"));
    assert!(plan.record.withdraw_memo.is_none());
    assert!(plan.destination.is_none());
}

#[test]
fn sep24_created_requires_account() {
    let mut tx = event_tx(24, "deposit");
    tx.account = None;
    match plan_sep24_created_with(&tx, "TEST", "GDIST", 5) {
        Err(AppError::BadRequest(m)) => assert_eq!(m, "transaction_created missing account"),
        _ => panic!("expected a bad request"),
    }
}

#[test]
fn sep24_created_random_memo_is_in_range() {
    let plan = plan_sep24_created(&event_tx(24, "withdrawal"), "TEST", "GDIST").ok().unwrap();
    let memo = parse_u64(plan.record.withdraw_memo.as_deref().unwrap()).unwrap();
    assert!(memo >= 1 && memo <= 1u64 << 32);
    assert_eq!(plan.destination.unwrap().memo, memo.to_string());
}

#[test]
fn sep31_amount_out_defaults_to_amount_in_less_fee() {
    let mut tx = event_tx(31, "receive");
    tx.fee_total = Some(Amount::new(25, 1));
    let plan = plan_sep31_created_with(&tx, "TEST", "GDIST", 99).ok().unwrap();
    let out = plan.record.amount_out.unwrap();
    assert_eq!((out.mantissa(), out.scale()), (980, 1));
    let fee = plan.record.fee.unwrap();
    assert_eq!((fee.mantissa(), fee.scale()), (25, 1));
    assert_eq!(plan.record.stellar_memo, "100");
    assert_eq!(plan.record.creator_account, "GWALLET");
    assert_eq!(plan.record.creator_memo.as_deref(), Some("77"));
    assert_eq!(plan.record.sender_id.as_deref(), Some("sender"));
    assert_eq!(plan.record.receiver_id.as_deref(), Some("receiver"));
    assert_eq!(plan.destination.memo, "100");
    assert_eq!(plan.destination.memo_type, "id");
    assert_eq!(plan.destination.destination_account, "GDIST");
    assert_eq!(plan.destination.amount_in, "100.5");
}

#[test]
fn sep31_fee_defaults_to_zero_and_amount_out_is_kept() {
    let mut tx = event_tx(31, "receive");
    tx.amount_out = Some(EventAmount { amount: Amount::new(90, 0), asset: None });
    let plan = plan_sep31_created_with(&tx, "TEST", "GDIST", 0).ok().unwrap();
    let fee = plan.record.fee.unwrap();
    assert_eq!(fee.mantissa(), 0);
    let out = plan.record.amount_out.unwrap();
    assert_eq!((out.mantissa(), out.scale()), (90, 0));
}

#[test]
fn sep31_created_requires_account_and_amount() {
    let mut tx = event_tx(31, "receive");
    tx.account = None;
    match plan_sep31_created_with(&tx, "TEST", "GDIST", 0) {
        Err(AppError::BadRequest(m)) => assert_eq!(m, "transaction_created missing account"),
        _ => panic!("expected a bad request"),
    }
    let mut tx = event_tx(31, "receive");
    tx.amount_in = None;
    match plan_sep31_created(&tx, "TEST", "GDIST") {
        Err(AppError::BadRequest(m)) => assert_eq!(m, "transaction_created missing amount_in"),
        _ => panic!("expected a bad request"),
    }
}

#[test]
fn sep31_fee_overflow_is_an_internal_error() {
    let mut tx = event_tx(31, "receive");
    let big = (1i128 << 96) - 1;
    tx.amount_in = Some(EventAmount { amount: Amount::from_parts(-big, 0).unwrap(), asset: None });
    tx.fee_total = Some(Amount::from_parts(big, 0).unwrap());
    match plan_sep31_created_with(&tx, "TEST", "GDIST", 0) {
        Err(AppError::Internal(m)) => assert_eq!(m, "amount out of range"),
        _ => panic!("expected an internal error"),
    }
}

#[test]
fn amount_in_stellar_names_the_anchor_asset() {
    let a = amount_in_stellar("TEST", "GDIST", Amount::new(1234, 2));
    assert_eq!(a.amount, "12.34");
    assert_eq!(a.asset.as_deref(), Some("stellar:TEST:GDIST"));
}
