use anchor_rust::db::customers::provided_field_names;
use anchor_rust::kyc::required_fields;

#[test]
fn sep31_receiver_requires_bank_fields_only() {
    let fields = required_fields("sep31-receiver");
    assert_eq!(fields.len(), 4);
    assert!(fields.iter().all(|f| f.name.starts_with("bank_")));
}

#[test]
fn sep6_withdrawal_requires_deposit_fields_plus_bank() {
    let fields = required_fields("sep6");
    assert_eq!(fields.len(), required_fields("sep6-deposit").len() + required_fields("sep31-receiver").len());
    assert_eq!(fields.len(), 7 + 4);
}

#[test]
fn unknown_type_falls_back_to_sep24() {
    assert_eq!(
        required_fields("bogus").len(),
        required_fields("sep24").len()
    );
}

#[test]
fn sep6_withdrawal_alias_matches_sep6() {
    let a: Vec<&str> = required_fields("sep6").iter().map(|f| f.name).collect();
    let b: Vec<&str> = required_fields("sep6-withdrawal").iter().map(|f| f.name).collect();
    assert_eq!(a, b);
    assert_eq!(a[0], "birth_date");
    assert_eq!(a[7], "bank_account_number");
}

#[test]
fn sep24_and_sender_fields() {
    let sep24: Vec<&str> = required_fields("sep24").iter().map(|f| f.name).collect();
    assert_eq!(sep24, vec!["first_name", "last_name", "email_address"]);
    let sender: Vec<&str> = required_fields("sep31-sender").iter().map(|f| f.name).collect();
    assert_eq!(sender, vec!["first_name", "last_name"]);
    let deposit = required_fields("sep6-deposit");
    assert_eq!(deposit.len(), 7);
    assert_eq!(deposit[0].field_type, "date");
    assert_eq!(deposit[6].description, "Full physical address");
}

#[test]
fn split_fields_partitions_requirements() {
    let required = required_fields("sep24");
    let provided = vec!["last_name".to_string(), "nickname".to_string()];
    let (missing, accepted) = anchor_rust::kyc::split_fields(&required, &provided);
    let m: Vec<&str> = missing.iter().map(|f| f.name).collect();
    let a: Vec<&str> = accepted.iter().map(|f| f.name).collect();
    assert_eq!(m, vec!["first_name", "email_address"]);
    assert_eq!(a, vec!["last_name"]);
}

#[test]
fn only_non_null_values_count_as_provided() {
    let values = vec![("first_name".to_string(), false), ("last_name".to_string(), true), ("email_address".to_string(), false)];
    assert_eq!(provided_field_names(&values), vec!["first_name".to_string(), "email_address".to_string()]);
    assert!(provided_field_names(&Vec::new()).is_empty());
}

#[test]
fn every_table_is_sound() {
    for t in ["sep6", "sep6-withdrawal", "sep6-deposit", "sep24", "sep31-sender", "sep31-receiver", "bogus"] {
        let fields = required_fields(t);
        assert!(fields.len() >= 2);
        for (i, f) in fields.iter().enumerate() {
            assert!(!f.description.is_empty());
            let date = ["birth_date", "id_issue_date", "id_expiration_date"].contains(&f.name);
            assert_eq!(f.field_type, if date { "date" } else { "string" });
            for g in &fields[i + 1..] {
                assert_ne!(f.name, g.name);
            }
        }
    }
}
