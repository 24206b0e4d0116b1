use anchor_rust::amount::Amount;
use anchor_rust::ledger::{parse_account, LedgerError};
use anchor_rust::payment::{build_payment, distribution_account_id, hex_encode};
use stellar_base::crypto::DalekKeyPair;
use stellar_base::network::Network;
use stellar_base::transaction::TransactionEnvelope;
use stellar_base::xdr::XDRDeserialize;

const PASSPHRASE: &str = "Test SDF Network ; September 2015";
const DESTINATION: &str = "GBLGJA4TUN5XOGTV6WO2BWYUI2OZR5GYQ5PDPCRMQ5XEPJOYWB2X4CJO";

fn seed() -> String {
    DalekKeyPair::random().unwrap().secret_key().secret_seed()
}

#[test]
fn hex_is_lowercase_two_digits_per_byte() {
    assert_eq!(hex_encode(&vec![0x00, 0xff, 0x1a, 0x09]), "00ff1a09");
    assert_eq!(hex_encode(&Vec::new()), "");
}

#[test]
fn account_id_of_the_distribution_seed() {
    let s = seed();
    let expected = DalekKeyPair::from_secret_seed(&s).unwrap().public_key().account_id();
    assert_eq!(distribution_account_id(&s).ok(), Some(expected));
    assert!(distribution_account_id("SNOTASEED").is_err());
}

#[test]
fn signed_payment_hash_is_the_transaction_hash() {
    let s = seed();
    let destination = parse_account(DESTINATION).unwrap();
    let p = build_payment(&s, PASSPHRASE, 41, &destination, "TEST", Amount::new(25, 1), Some(7)).ok().unwrap();
    assert_eq!((p.plan.sequence, p.plan.stroops, p.plan.memo_id), (42, 25_000_000, Some(7)));
    assert_eq!(p.hash.len(), 64);
    let envelope = TransactionEnvelope::from_xdr_base64(&p.envelope_xdr).unwrap();
    let hash = match envelope {
        TransactionEnvelope::Transaction(tx) => {
            assert_eq!(*tx.sequence(), 42);
            assert_eq!(tx.signatures().len(), 1);
            tx.hash(&Network::new(PASSPHRASE.to_string())).unwrap()
        }
        _ => panic!("expected a plain transaction"),
    };
    assert_eq!(p.hash, hex_encode(&hash));
    // the same payment on another network has another hash
    let other = build_payment(&s, "Public Global Stellar Network ; September 2015", 41, &destination, "TEST", Amount::new(25, 1), Some(7)).ok().unwrap();
    assert_ne!(other.hash, p.hash);
}

#[test]
fn payment_errors() {
    let s = seed();
    let destination = parse_account(DESTINATION).unwrap();
    match build_payment(&s, PASSPHRASE, 1, &destination, "TEST", Amount::new(1, 8), None) {
        Err(LedgerError::InvalidAmount(m)) => assert_eq!(m, "0.00000001"),
        _ => panic!("expected an invalid amount"),
    }
    assert!(matches!(
        build_payment("SNOTASEED", PASSPHRASE, 1, &destination, "TEST", Amount::new(1, 0), None),
        Err(LedgerError::Base(_))
    ));
    assert!(matches!(
        build_payment(&s, PASSPHRASE, 1, &destination, "WAYTOOLONGASSETCODE", Amount::new(1, 0), None),
        Err(LedgerError::Base(_))
    ));
}
