use anchor_rust::error::AppError;
use anchor_rust::sep12::{
    customer_response, customer_type_or_default, delete_outcome, plan_customer_lookup, plan_put_customer,
    upsert_target, CustomerLookup, GetCustomerQuery, PutCustomerRequest, StoredCustomer,
};

#[test]
fn lookup_by_id_or_identity() {
    let q = GetCustomerQuery { id: Some(5), account: None, memo: None, customer_type: None };
    assert!(matches!(plan_customer_lookup(&q), Ok(CustomerLookup::ById(5))));
    let q = GetCustomerQuery { id: None, account: Some("GA".to_string()), memo: Some("1".to_string()), customer_type: None };
    match plan_customer_lookup(&q) {
        Ok(CustomerLookup::ByIdentity { account, memo, customer_type }) => {
            assert_eq!(account, "GA");
            assert_eq!(memo.as_deref(), Some("1"));
            assert_eq!(customer_type, "sep24");
        }
        _ => panic!("expected a lookup by identity"),
    }
    let q = GetCustomerQuery { id: None, account: None, memo: None, customer_type: None };
    match plan_customer_lookup(&q) {
        Err(AppError::BadRequest(m)) => assert_eq!(m, "missing 'account' parameter"),
        _ => panic!("expected a bad request"),
    }
}

#[test]
fn unknown_customer_needs_everything() {
    let r = customer_response("sep31-receiver", &None);
    assert!(r.id.is_none());
    assert_eq!(r.status, "NEEDS_INFO");
    assert_eq!(r.fields.len(), 4);
    assert!(r.provided_fields.is_empty());
    assert!(r.fields.iter().all(|(_, f)| !f.optional));
}

#[test]
fn partially_provided_customer() {
    let c = StoredCustomer { id: "c-1".to_string(), provided_fields: vec!["first_name".to_string()] };
    let r = customer_response("sep24", &Some(c));
    assert_eq!(r.id.as_deref(), Some("c-1"));
    assert_eq!(r.status, "NEEDS_INFO");
    let missing: Vec<&str> = r.fields.iter().map(|(n, _)| n.as_str()).collect();
    assert_eq!(missing, vec!["last_name", "email_address"]);
    assert_eq!(r.provided_fields.len(), 1);
    assert_eq!(r.provided_fields[0].0, "first_name");
    assert_eq!(r.provided_fields[0].1.status, "ACCEPTED");
    assert_eq!(r.provided_fields[0].1.description, "Given name");
}

#[test]
fn complete_customer_is_accepted() {
    let c = StoredCustomer {
        id: "c-2".to_string(),
        provided_fields: vec!["first_name".to_string(), "last_name".to_string()],
    };
    let r = customer_response("sep31-sender", &Some(c));
    assert_eq!(r.status, "ACCEPTED");
    assert!(r.fields.is_empty());
}

#[test]
fn put_customer_plans() {
    let req = PutCustomerRequest {
        id: None,
        account: Some("GA".to_string()),
        memo: Some("7".to_string()),
        memo_type: Some("id".to_string()),
        customer_type: Some("sep31-receiver".to_string()),
    };
    let p = plan_put_customer(&req, true).ok().unwrap();
    assert_eq!(p.upsert.account, "GA");
    assert_eq!(p.upsert.owner_account, "GA");
    assert_eq!(p.upsert.owner_memo.as_deref(), Some("7"));
    assert!(p.resume_receiver);
    let req2 = PutCustomerRequest { customer_type: None, ..req };
    let p2 = plan_put_customer(&req2, true).ok().unwrap();
    assert_eq!(p2.upsert.customer_type, "sep24");
    assert!(!p2.resume_receiver);
    let missing_account = PutCustomerRequest { id: None, account: None, memo: None, memo_type: None, customer_type: None };
    match plan_put_customer(&missing_account, true) {
        Err(AppError::BadRequest(m)) => assert_eq!(m, "missing 'account' parameter"),
        _ => panic!("expected a bad request"),
    }
    let unknown_id = PutCustomerRequest { id: Some(9), account: None, memo: None, memo_type: None, customer_type: None };
    match plan_put_customer(&unknown_id, false) {
        Err(AppError::NotFound(m)) => assert_eq!(m, "customer not found"),
        _ => panic!("expected not found"),
    }
}

#[test]
fn upsert_and_delete_decisions() {
    assert_eq!(upsert_target(Some(1), Some(2)), Some(1));
    assert_eq!(upsert_target(None, Some(2)), Some(2));
    assert_eq!(upsert_target(None, None), None);
    assert!(delete_outcome(1).is_ok());
    assert!(matches!(delete_outcome(0), Err(AppError::NotFound(_))));
    assert_eq!(customer_type_or_default(&None), "sep24");
    assert_eq!(customer_type_or_default(&Some("sep6".to_string())), "sep6");
}
