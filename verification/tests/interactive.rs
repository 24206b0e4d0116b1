use anchor_rust::amount::Amount;
use rust_decimal::Decimal;
use anchor_rust::clock::Timestamp;
use anchor_rust::db::sep24_transactions::Sep24Transaction;
use anchor_rust::error::AppError;
use anchor_rust::sep12::CustomerLookup;
use anchor_rust::sep24::interactive::{
    form_customer, form_view, param, plan_submission, submission_ids, transaction_for_form, InteractiveQuery,
};

fn record(kind: &str, status: &str) -> Sep24Transaction {
    Sep24Transaction {
        id: 11,
        platform_transaction_id: "ptx-9".to_string(),
        kind: kind.to_string(),
        status: status.to_string(),
        account: "GWALLET".to_string(),
        memo: None,
        memo_type: None,
        asset_code: "TEST".to_string(),
        amount_in: Some(Amount::new(2500, 2)),
        amount_out: None,
        amount_fee: None,
        stellar_transaction_id: None,
        message: None,
        withdraw_memo: Some("1234".to_string()),
        started_at: Timestamp { secs: 0, nanos: 0 },
        completed_at: None,
    }
}

fn pairs(v: &[(&str, &str)]) -> Vec<(String, String)> {
    v.iter().map(|(k, x)| (k.to_string(), x.to_string())).collect()
}

#[test]
fn form_needs_a_received_transaction() {
    match transaction_for_form(None, "ptx-9") {
        Err(AppError::NotFound(m)) => assert_eq!(m, "transaction not found"),
        _ => panic!("expected not found"),
    }
    match transaction_for_form(Some(record("deposit", "received")), "ptx-9") {
        Ok(Ok(t)) => assert_eq!(t.id, 11),
        _ => panic!("expected the record"),
    }
    match transaction_for_form(Some(record("deposit", "pending_anchor")), "ptx-9") {
        Ok(Err(page)) => {
            assert_eq!(page.heading, "Already submitted");
            assert_eq!(page.body, "This deposit/withdrawal has already been submitted.");
            assert_eq!(page.transaction_id, "ptx-9");
            assert_eq!(page.status, "pending_anchor");
            assert!(!page.post_message);
        }
        _ => panic!("expected the already-submitted page"),
    }
}

#[test]
fn deposit_form_asks_for_missing_fields() {
    let q = InteractiveQuery { transaction_id: "ptx-9".to_string(), token: "tok".to_string() };
    let view = form_view(&record("deposit", "received"), &vec!["last_name".to_string()], q);
    assert_eq!(view.action_title, "Complete your deposit");
    assert_eq!(view.submit_label, "I have sent the funds");
    assert_eq!(view.transaction_id, "ptx-9");
    assert_eq!(view.token, "tok");
    assert_eq!(view.asset_code, "TEST");
    assert_eq!(view.amount, "25.00");
    let names: Vec<&str> = view.missing_fields.iter().map(|f| f.name.as_str()).collect();
    assert_eq!(names, vec!["first_name", "email_address"]);
    assert_eq!(view.missing_fields[0].description, "Given name");
}

#[test]
fn withdrawal_form_wording() {
    let q = InteractiveQuery { transaction_id: "ptx-9".to_string(), token: "tok".to_string() };
    let mut tx = record("withdrawal", "received");
    tx.amount_in = None;
    let provided = vec!["first_name".to_string(), "last_name".to_string(), "email_address".to_string()];
    let view = form_view(&tx, &provided, q);
    assert_eq!(view.action_title, "Complete your withdrawal");
    assert_eq!(view.submit_label, "Continue");
    assert_eq!(view.amount, "");
    assert!(view.missing_fields.is_empty());
}

#[test]
fn later_form_value_wins() {
    let params = pairs(&[("amount", "1"), ("x", "y"), ("amount", "2")]);
    assert_eq!(param(&params, "amount").as_deref(), Some("2"));
    assert_eq!(param(&params, "x").as_deref(), Some("y"));
    assert_eq!(param(&params, "z"), None);
}

#[test]
fn submission_needs_transaction_id_and_token() {
    match submission_ids(&pairs(&[("token", "t")])) {
        Err(AppError::BadRequest(m)) => assert_eq!(m, "missing transaction_id"),
        _ => panic!("expected a bad request"),
    }
    match submission_ids(&pairs(&[("transaction_id", "ptx-9")])) {
        Err(AppError::BadRequest(m)) => assert_eq!(m, "missing token"),
        _ => panic!("expected a bad request"),
    }
    let (id, token) = submission_ids(&pairs(&[("transaction_id", "ptx-9"), ("token", "t")])).ok().unwrap();
    assert_eq!((id.as_str(), token.as_str()), ("ptx-9", "t"));
}

#[test]
fn deposit_submission_starts_payout() {
    let params = pairs(&[
        ("transaction_id", "ptx-9"),
        ("token", "t"),
        ("amount", "50"),
        ("first_name", "Ada"),
        ("email_address", "ada@example.com"),
        ("unrelated", "x"),
    ]);
    let s = plan_submission(&record("deposit", "received"), &params, "ptx-9", "GDIST").ok().unwrap();
    assert_eq!((s.amount.mantissa(), s.amount.scale()), (50, 0));
    assert_eq!(s.fee, Amount::new(5, 0));
    assert_eq!(s.amount_out, Amount::new(45, 0));
    assert_eq!(
        s.kyc_fields,
        vec![
            ("first_name".to_string(), "Ada".to_string()),
            ("email_address".to_string(), "ada@example.com".to_string()),
        ]
    );
    assert!(s.start_deposit);
    assert_eq!(s.page.heading, "Deposit submitted");
    assert_eq!(s.page.status, "pending_user_transfer_start");
    assert!(s.page.post_message);
}

#[test]
fn withdrawal_submission_shows_instructions() {
    let params = pairs(&[("amount", "12.5")]);
    let s = plan_submission(&record("withdrawal", "received"), &params, "ptx-9", "GDIST").ok().unwrap();
    assert!(!s.start_deposit);
    assert!(s.kyc_fields.is_empty());
    assert_eq!(s.page.heading, "Send your funds");
    assert_eq!(
        s.page.body,
        "Send exactly 12.5 TEST to account GDIST with memo (id) 1234. Once received, your withdrawal will be completed automatically."
    );
    assert_eq!(s.fee, Amount::new(125, 2));
    assert_eq!(s.amount_out, Amount::new(1125, 2));
}

#[test]
fn submission_rejects_bad_amounts() {
    for params in [pairs(&[]), pairs(&[("amount", "ten")]), pairs(&[("amount", "")])] {
        match plan_submission(&record("deposit", "received"), &params, "ptx-9", "GDIST") {
            Err(AppError::BadRequest(m)) => assert_eq!(m, "invalid amount"),
            _ => panic!("expected a bad request"),
        }
    }
}

#[test]
fn form_customer_is_the_sep24_customer_of_the_wallet() {
    let mut tx = record("deposit", "received");
    tx.memo = Some("5".to_string());
    tx.memo_type = Some("id".to_string());
    match form_customer(&tx) {
        CustomerLookup::ByIdentity { account, memo, customer_type } => {
            assert_eq!(account, "GWALLET");
            assert_eq!(memo.as_deref(), Some("5"));
            assert_eq!(customer_type, "sep24");
        }
        _ => panic!("expected a lookup by identity"),
    }
    let s = plan_submission(&tx, &pairs(&[("amount", "1")]), "ptx-9", "GDIST").ok().unwrap();
    assert!(s.customer.id.is_none());
    assert_eq!(s.customer.account, "GWALLET");
    assert_eq!(s.customer.owner_account, "GWALLET");
    assert_eq!(s.customer.memo.as_deref(), Some("5"));
    assert_eq!(s.customer.owner_memo.as_deref(), Some("5"));
    assert_eq!(s.customer.memo_type.as_deref(), Some("id"));
    assert_eq!(s.customer.customer_type, "sep24");
}

#[test]
fn fee_and_amount_out_add_up_to_the_amount() {
    let dec = |a: &Amount| Decimal::from_i128_with_scale(a.mantissa(), a.scale());
    for text in ["0", "0.00000001", "1", "12.5", "333.3333333", "-7.25", "99999999999.1234567"] {
        let params = pairs(&[("amount", text)]);
        let s = plan_submission(&record("withdrawal", "received"), &params, "ptx-9", "GDIST").ok().unwrap();
        assert_eq!(dec(&s.amount_out) + dec(&s.fee), dec(&s.amount), "amount {}", text);
    }
}
