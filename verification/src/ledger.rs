//! Stellar account addresses as payment destinations, the memo of a
//! deposit payout, and the errors of the ledger client.

use vstd::prelude::*;
use stellar_base::crypto::{decode_muxed_account, PublicKey};
use crate::text::{starts_with, str_eq, parse_u64, parse_u64_spec};
use crate::amount::{Amount, AmountModel, pow10, decimal_display, decimal_from_str};

verus! {

/// A failure of the ledger client: from `stellar_base`, from Horizon, or
/// an amount Stellar cannot carry.
#[derive(Debug)]
pub enum LedgerError {
    Base(String),
    Horizon(String),
    InvalidAmount(String),
}

/// A multiplexed account: the 32-byte ed25519 key and the account id.
#[derive(Debug)]
pub struct MuxedEd25519PublicKey {
    pub key: Vec<u8>,
    pub id: u64,
}

/// A payment destination: a plain account (`G...`), given by its 32-byte
/// ed25519 key, or a multiplexed one (`M...`).
#[derive(Debug)]
pub enum MuxedAccount {
    Ed25519(Vec<u8>),
    MuxedEd25519(MuxedEd25519PublicKey),
}

/// The ed25519 key that `PublicKey::from_account_id` decodes from a
/// `G...` strkey, `None` when it rejects the text.
pub uninterp spec fn ed25519_account_key(account_id: Seq<char>) -> Option<Seq<u8>>;

/// The ed25519 key and id that `stellar_base`'s `decode_muxed_account`
/// decodes from an `M...` strkey, `None` when it rejects the text.
pub uninterp spec fn muxed_account_key(account_id: Seq<char>) -> Option<(Seq<u8>, u64)>;

/// Decodes a `G...` account id (`PublicKey::from_account_id`); on failure
/// the text of `stellar_base`'s error.
#[verifier::external_body]
fn decode_ed25519_account(account_id: &str) -> (r: Result<Vec<u8>, String>)
    ensures
        r is Ok <==> ed25519_account_key(account_id@) is Some,
        r matches Ok(k) ==> Some(k@) == ed25519_account_key(account_id@) && k@.len() == 32,
{
    PublicKey::from_account_id(account_id).map(|pk| pk.0.to_vec()).map_err(|e| e.to_string())
}

/// Decodes an `M...` account id (`stellar_base::crypto::decode_muxed_account`,
/// which `MuxedEd25519PublicKey::from_account_id` decodes with); on failure
/// the text of `stellar_base`'s error.
#[verifier::external_body]
fn decode_muxed(account_id: &str) -> (r: Result<(Vec<u8>, u64), String>)
    ensures
        r is Ok <==> muxed_account_key(account_id@) is Some,
        r matches Ok(k) ==> muxed_account_key(account_id@) == Some((k.0@, k.1)) && k.0@.len() == 32,
{
    decode_muxed_account(account_id).map_err(|e| e.to_string())
}

/// The message of a destination that does not decode.
pub open spec fn invalid_account_message(muxed: bool, detail: Seq<char>) -> Seq<char> {
    if muxed { "invalid muxed account: "@ + detail } else { "invalid account: "@ + detail }
}

/// An account id decodes as a payment destination: as a multiplexed
/// account when it starts with `M`, as a plain one otherwise.
pub open spec fn account_decodes(account_id: Seq<char>) -> bool {
    if "M"@.is_prefix_of(account_id) {
        muxed_account_key(account_id) is Some
    } else {
        ed25519_account_key(account_id) is Some
    }
}

/// The key of a plain destination, or key and id of a multiplexed one.
pub open spec fn account_matches(a: MuxedAccount, account_id: Seq<char>) -> bool {
    match a {
        MuxedAccount::Ed25519(k) => ed25519_account_key(account_id) == Some(k@),
        MuxedAccount::MuxedEd25519(m) => muxed_account_key(account_id) == Some((m.key@, m.id)),
    }
}

/// Parses a Stellar strkey account id, `G...` or `M...`, into a payment
/// destination: ids starting with `M` are read as multiplexed accounts,
/// all others as plain ones.
pub fn parse_account(account_id: &str) -> (r: Result<MuxedAccount, LedgerError>)
    ensures
        r is Ok <==> account_decodes(account_id@),
        "M"@.is_prefix_of(account_id@) ==> match r {
            Ok(a) => a is MuxedEd25519 && account_matches(a, account_id@),
            Err(LedgerError::Base(msg)) => muxed_account_key(account_id@) is None
                && exists|d: Seq<char>| msg@ == invalid_account_message(true, d),
            Err(_) => false,
        },
        !"M"@.is_prefix_of(account_id@) ==> match r {
            Ok(a) => a is Ed25519 && account_matches(a, account_id@),
            Err(LedgerError::Base(msg)) => ed25519_account_key(account_id@) is None
                && exists|d: Seq<char>| msg@ == invalid_account_message(false, d),
            Err(_) => false,
        },
{
    if starts_with(account_id, "M") {
        match decode_muxed(account_id) {
            Ok((key, id)) => Ok(MuxedAccount::MuxedEd25519(MuxedEd25519PublicKey { key, id })),
            Err(e) => {
                let mut msg = String::from_str("invalid muxed account: ");
                msg.append(e.as_str());
                assert(msg@ == invalid_account_message(true, e@));
                Err(LedgerError::Base(msg))
            },
        }
    } else {
        match decode_ed25519_account(account_id) {
            Ok(key) => Ok(MuxedAccount::Ed25519(key)),
            Err(e) => {
                let mut msg = String::from_str("invalid account: ");
                msg.append(e.as_str());
                assert(msg@ == invalid_account_message(false, e@));
                Err(LedgerError::Base(msg))
            },
        }
    }
}

/// The id memo of a deposit payout: the wallet's memo when its type is
/// `id` and it reads as a `u64`; otherwise the payout carries no memo.
pub open spec fn deposit_memo_model(memo_type: Option<String>, memo: Option<String>) -> Option<u64> {
    match (memo_type, memo) {
        (Some(t), Some(m)) => if t@ == "id"@ { parse_u64_spec(m@) } else { None },
        _ => None,
    }
}

/// The id memo a deposit payout carries.
pub fn deposit_memo_id(memo_type: &Option<String>, memo: &Option<String>) -> (r: Option<u64>)
    ensures
        r == deposit_memo_model(*memo_type, *memo),
{
    match (memo_type, memo) {
        (Some(t), Some(m)) => {
            if str_eq(t.as_str(), "id") {
                parse_u64(m.as_str())
            } else {
                None
            }
        },
        _ => None,
    }
}

/// Why `stellar_base` refuses the text of a payment amount: it is no
/// decimal with at most 7 places, or its stroops do not fit an `i64`.
pub enum StroopsRefusal {
    Unparsed,
    OutOfRange,
}

/// The stroops (units of `10^-7`) of a decimal with at most 7 places,
/// when they fit an `i64`.
pub open spec fn stroops_model(x: AmountModel) -> Option<int> {
    if x.scale <= 7 {
        let s = x.mantissa * pow10((7 - x.scale) as nat);
        if i64::MIN <= s <= i64::MAX { Some(s) } else { None }
    } else {
        None
    }
}

/// The stroops of an amount text: `stellar_base::amount::Amount::from_str`
/// (a `Decimal` parse refused beyond 7 places, then rescaled to 7 places)
/// and its `to_stroops` (the value times `10^7`, refused outside `i64`).
#[verifier::external_body]
fn stellar_stroops(text: &str) -> (r: Result<i64, StroopsRefusal>)
    ensures
        match decimal_from_str(text@) {
            Some(x) => if x.scale <= 7 {
                match stroops_model(x) {
                    Some(s) => r matches Ok(v) && v == s,
                    None => r matches Err(StroopsRefusal::OutOfRange),
                }
            } else {
                r matches Err(StroopsRefusal::Unparsed)
            },
            None => r matches Err(StroopsRefusal::Unparsed),
        },
{
    match text.parse::<stellar_base::amount::Amount>() {
        Err(_) => Err(StroopsRefusal::Unparsed),
        Ok(a) => a.to_stroops().map(|s| s.to_i64()).map_err(|_| StroopsRefusal::OutOfRange),
    }
}

/// What a payment of `amount` is sent as: the stroops of its text; an
/// amount with more than 7 places is an invalid amount, one whose stroops
/// overflow is refused as `stellar_base` refuses it.
pub open spec fn payment_stroops_post(amount: AmountModel, r: Result<i64, LedgerError>) -> bool {
    match decimal_from_str(decimal_display(amount)) {
        Some(x) => if x.scale <= 7 {
            match stroops_model(x) {
                Some(s) => r matches Ok(v) && v == s,
                None => r matches Err(LedgerError::Base(m)) && m@ == "invalid stroops amount"@,
            }
        } else {
            r matches Err(LedgerError::InvalidAmount(m)) && m@ == decimal_display(amount)
        },
        None => r matches Err(LedgerError::InvalidAmount(m)) && m@ == decimal_display(amount),
    }
}

/// The stroops a payment of `amount` carries.
pub fn payment_stroops(amount: Amount) -> (r: Result<i64, LedgerError>)
    ensures
        payment_stroops_post(amount@, r),
{
    let text = Amount::decimal_display_call(&amount);
    match stellar_stroops(text.as_str()) {
        Ok(s) => Ok(s),
        Err(StroopsRefusal::Unparsed) => Err(LedgerError::InvalidAmount(text)),
        Err(StroopsRefusal::OutOfRange) => Err(LedgerError::Base(String::from_str("invalid stroops amount"))),
    }
}

/// A payment from the distribution account: the sequence number it is
/// sent with, its stroops and its id memo.
pub struct PaymentPlan {
    pub sequence: i64,
    pub stroops: i64,
    pub memo_id: Option<u64>,
}

/// Plans a payment of `amount` from an account whose current sequence
/// number is `current_sequence`: the next sequence number, the stroops of
/// the amount, and the memo.
pub fn plan_payment(current_sequence: i64, amount: Amount, memo_id: Option<u64>) -> (r: Result<PaymentPlan, LedgerError>)
    requires
        current_sequence < i64::MAX,
    ensures
        match r {
            Ok(p) => p.sequence == current_sequence + 1 && p.memo_id == memo_id
                && payment_stroops_post(amount@, Ok(p.stroops)),
            Err(e) => payment_stroops_post(amount@, Err(e)),
        },
{
    let stroops = payment_stroops(amount)?;
    Ok(PaymentPlan { sequence: current_sequence + 1, stroops, memo_id })
}

} // verus!
