use anchor_rust::amount::Amount;
use anchor_rust::clock::Timestamp;
use anchor_rust::db::sep24_transactions::Sep24Transaction;
use anchor_rust::db::sep31_transactions::Sep31Transaction;
use anchor_rust::event::{plan_sep24_created_with, plan_sep31_created_with, EventAmount, EventTransaction};
use anchor_rust::observer::{
    find_waiting_receive, find_waiting_withdrawal, incoming_memo, match_payment, IncomingPayment, PaymentMatch,
};
use anchor_rust::sep31::worker::{
    after_funds_received, after_receiver_check, receiver_check_target, receiver_kyc_status,
    resume_after_check, resume_candidate, simulated_reference, AfterFunds, ReceiveAction,
};

fn receive(memo: &str, status: &str, receiver: Option<&str>) -> Sep31Transaction {
    Sep31Transaction {
        id: 7,
        platform_transaction_id: "p-31".to_string(),
        status: status.to_string(),
        creator_account: "GSENDER".to_string(),
        creator_memo: None,
        asset_code: "TEST".to_string(),
        amount_in: Amount::new(100, 0),
        amount_out: Some(Amount::new(90, 0)),
        fee: Some(Amount::new(10, 0)),
        sender_id: None,
        receiver_id: receiver.map(|s| s.to_string()),
        stellar_memo: memo.to_string(),
        stellar_memo_type: "id".to_string(),
        required_info_message: None,
        stellar_transaction_id: None,
        started_at: Timestamp { secs: 0, nanos: 0 },
        completed_at: None,
    }
}

fn withdrawal(memo: Option<&str>, asset: &str, status: &str) -> Sep24Transaction {
    Sep24Transaction {
        id: 3,
        platform_transaction_id: "p-24".to_string(),
        kind: "withdrawal".to_string(),
        status: status.to_string(),
        account: "GWALLET".to_string(),
        memo: None,
        memo_type: None,
        asset_code: asset.to_string(),
        amount_in: Some(Amount::new(5, 0)),
        amount_out: None,
        amount_fee: None,
        stellar_transaction_id: None,
        message: None,
        withdraw_memo: memo.map(|s| s.to_string()),
        started_at: Timestamp { secs: 0, nanos: 0 },
        completed_at: None,
    }
}

fn payment(to: &str, code: Option<&str>, issuer: Option<&str>, memo: Option<&str>) -> IncomingPayment {
    IncomingPayment {
        to: to.to_string(),
        asset_code: code.map(|s| s.to_string()),
        asset_issuer: issuer.map(|s| s.to_string()),
        memo: memo.map(|s| s.to_string()),
        transaction_hash: "abc".to_string(),
    }
}

#[test]
fn only_own_asset_to_distribution_account_is_matched() {
    let p = payment("GDIST", Some("TEST"), Some("GDIST"), Some("42"));
    assert_eq!(incoming_memo(&p, "GDIST", "TEST").as_deref(), Some("42"));
    assert!(incoming_memo(&payment("GOTHER", Some("TEST"), Some("GDIST"), Some("42")), "GDIST", "TEST").is_none());
    assert!(incoming_memo(&payment("GDIST", Some("USDC"), Some("GDIST"), Some("42")), "GDIST", "TEST").is_none());
    assert!(incoming_memo(&payment("GDIST", Some("TEST"), Some("GISSUER"), Some("42")), "GDIST", "TEST").is_none());
    assert!(incoming_memo(&payment("GDIST", None, None, Some("42")), "GDIST", "TEST").is_none());
    assert!(incoming_memo(&payment("GDIST", Some("TEST"), Some("GDIST"), None), "GDIST", "TEST").is_none());
}

#[test]
fn waiting_withdrawal_is_found_by_memo_asset_and_status() {
    let candidates = vec![
        withdrawal(Some("42"), "TEST", "completed"),
        withdrawal(Some("42"), "USDC", "awaiting_stellar_payment"),
        withdrawal(None, "TEST", "awaiting_stellar_payment"),
        withdrawal(Some("42"), "TEST", "awaiting_stellar_payment"),
        withdrawal(Some("42"), "TEST", "awaiting_stellar_payment"),
    ];
    assert_eq!(find_waiting_withdrawal(&candidates, "42", "TEST"), Some(3));
    assert_eq!(find_waiting_withdrawal(&candidates, "43", "TEST"), None);
    assert_eq!(find_waiting_withdrawal(&Vec::new(), "42", "TEST"), None);
}

#[test]
fn waiting_receive_is_found_by_memo_asset_and_status() {
    let candidates = vec![
        receive("42", "completed", None),
        receive("41", "pending_receiver", None),
        receive("42", "pending_receiver", None),
    ];
    assert_eq!(find_waiting_receive(&candidates, "42", "TEST"), Some(2));
    assert_eq!(find_waiting_receive(&candidates, "42", "USDC"), None);
}

#[test]
fn receiver_ids_are_uuids() {
    assert_eq!(
        receiver_check_target("67e55044-10b1-426f-9247-bb680e5fe0c8"),
        Ok(0x67e5504410b1426f9247bb680e5fe0c8)
    );
    assert_eq!(receiver_check_target("67e5504410b1426f9247bb680e5fe0c8"), Ok(0x67e5504410b1426f9247bb680e5fe0c8));
    assert_eq!(receiver_check_target("not-a-uuid"), Err((false, "invalid receiver_id".to_string())));
    assert_eq!(receiver_check_target(""), Err((false, "invalid receiver_id".to_string())));
}

#[test]
fn receiver_kyc_lists_missing_bank_fields() {
    let (complete, message) = receiver_kyc_status(&vec![]);
    assert!(!complete);
    assert_eq!(
        message,
        "missing required receiver KYC fields: bank_account_number, bank_account_type, bank_number, bank_branch_number"
    );
    let (complete, message) =
        receiver_kyc_status(&vec!["bank_number".to_string(), "first_name".to_string()]);
    assert!(!complete);
    assert_eq!(
        message,
        "missing required receiver KYC fields: bank_account_number, bank_account_type, bank_branch_number"
    );
    let (complete, message) = receiver_kyc_status(&vec![
        "bank_account_type".to_string(),
        "bank_number".to_string(),
        "bank_account_number".to_string(),
        "bank_branch_number".to_string(),
    ]);
    assert!(complete);
    assert_eq!(message, "");
}

#[test]
fn funds_without_receiver_settle_directly() {
    assert!(matches!(after_funds_received(&receive("1", "pending_receiver", None)), AfterFunds::Settle));
    match after_funds_received(&receive("1", "pending_receiver", Some("r-1"))) {
        AfterFunds::CheckReceiver(id) => assert_eq!(id, "r-1"),
        _ => panic!("expected a receiver check"),
    }
}

#[test]
fn receiver_check_decides_settle_info_or_wait() {
    match after_receiver_check(&Ok((true, String::new())), "hash-1") {
        ReceiveAction::Settle(h) => assert_eq!(h, "hash-1"),
        _ => panic!("expected settle"),
    }
    match after_receiver_check(&Ok((false, "missing x".to_string())), "hash-1") {
        ReceiveAction::RequireInfo { message, incoming_hash } => {
            assert_eq!(message, "missing x");
            assert_eq!(incoming_hash, "hash-1");
        }
        _ => panic!("expected a request for information"),
    }
    assert!(matches!(after_receiver_check(&Err("db down".to_string()), "hash-1"), ReceiveAction::Wait));
}

#[test]
fn waiting_receive_resumes_with_recorded_hash() {
    let mut tx = receive("1", "pending_customer_info_update", Some("r-1"));
    assert!(resume_candidate(&tx).is_none());
    tx.stellar_transaction_id = Some("hash-9".to_string());
    let (id, hash) = resume_candidate(&tx).unwrap();
    assert_eq!(id, "r-1");
    assert_eq!(hash, "hash-9");
    match resume_after_check(&Ok((true, String::new())), &hash) {
        ReceiveAction::Settle(h) => assert_eq!(h, "hash-9"),
        _ => panic!("expected settle"),
    }
    assert!(matches!(resume_after_check(&Ok((false, "m".to_string())), &hash), ReceiveAction::Wait));
    assert!(matches!(resume_after_check(&Err("e".to_string()), &hash), ReceiveAction::Wait));
    let no_receiver = {
        let mut t = receive("1", "pending_customer_info_update", None);
        t.stellar_transaction_id = Some("hash-9".to_string());
        t
    };
    assert!(resume_candidate(&no_receiver).is_none());
}

#[test]
fn simulated_reference_names_a_fresh_uuid() {
    let a = simulated_reference();
    let b = simulated_reference();
    assert!(a.starts_with("SIMULATED-"));
    let u = receiver_check_target(&a["SIMULATED-".len()..]).unwrap();
    assert_eq!((u >> 76) & 0xf, 4);
    assert_eq!((u >> 62) & 0x3, 2);
    assert_ne!(a, b);
}

fn created(sep: u8, kind: &str) -> EventTransaction {
    EventTransaction {
        platform_transaction_id: "p-new".to_string(),
        sep,
        kind: kind.to_string(),
        status: "incomplete".to_string(),
        account: Some("GWALLET".to_string()),
        memo: None,
        memo_type: None,
        asset_code: None,
        amount_in: Some(EventAmount { amount: Amount::new(10, 0), asset: None }),
        amount_out: None,
        fee_total: None,
        sender_id: None,
        receiver_id: None,
        started_at: None,
    }
}

#[test]
fn payment_with_assigned_memo_matches_the_withdrawal() {
    let plan = plan_sep24_created_with(&created(24, "withdrawal"), "TEST", "GDIST", 1234).ok().unwrap();
    let d = plan.destination.unwrap();
    let mut stored = withdrawal(plan.record.withdraw_memo.as_deref(), &plan.record.asset_code, "awaiting_stellar_payment");
    stored.id = 99;
    let p = payment(&d.destination_account, Some("TEST"), Some("GDIST"), Some(&d.memo));
    let memo = incoming_memo(&p, "GDIST", "TEST").unwrap();
    let candidates = vec![withdrawal(Some("1"), "TEST", "awaiting_stellar_payment"), stored];
    let i = find_waiting_withdrawal(&candidates, &memo, "TEST").unwrap();
    assert_eq!(candidates[i].id, 99);
}

#[test]
fn payment_with_assigned_memo_matches_the_receive() {
    let plan = plan_sep31_created_with(&created(31, "receive"), "TEST", "GDIST", 7).ok().unwrap();
    let stored = receive(&plan.record.stellar_memo, "pending_receiver", None);
    let p = payment("GDIST", Some("TEST"), Some("GDIST"), Some(&plan.destination.memo));
    let memo = incoming_memo(&p, "GDIST", "TEST").unwrap();
    assert_eq!(find_waiting_receive(&vec![stored], &memo, "TEST"), Some(0));
}

#[test]
fn withdrawal_match_comes_before_receive() {
    let withdrawals = vec![withdrawal(Some("42"), "TEST", "completed"), withdrawal(Some("42"), "TEST", "awaiting_stellar_payment")];
    let receives = vec![receive("42", "pending_receiver", None)];
    assert!(matches!(match_payment(&withdrawals, &receives, "42", "TEST"), PaymentMatch::Withdrawal(1)));
    assert!(matches!(match_payment(&vec![withdrawal(Some("42"), "TEST", "completed")], &receives, "42", "TEST"), PaymentMatch::Receive(0)));
    assert!(matches!(match_payment(&Vec::new(), &receives, "43", "TEST"), PaymentMatch::Unmatched));
}
