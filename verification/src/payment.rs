//! The payments the distribution account sends: its account id from its
//! seed, and the payment transaction built, signed and hashed with
//! `stellar_base`, ready to be submitted.

use vstd::prelude::*;
use stellar_base::amount::Stroops;
use stellar_base::asset::Asset;
use stellar_base::crypto::{DalekKeyPair, MuxedEd25519PublicKey, PublicKey};
use stellar_base::memo::Memo;
use stellar_base::network::Network;
use stellar_base::operations::Operation;
use stellar_base::transaction::{Transaction, MIN_BASE_FEE};
use stellar_base::xdr::{XDRDeserialize, XDRSerialize};
use crate::amount::{Amount, decimal_display, decimal_from_str, pow10};
use crate::ledger::{LedgerError, MuxedAccount, PaymentPlan, plan_payment, payment_stroops_post};

verus! {

/// An error of `stellar_base`.
#[verifier::external_type_specification]
#[verifier::external_body]
pub struct ExStellarError(stellar_base::error::Error);

/// The account id (`G...`) of the key pair a secret seed (`S...`) decodes
/// to, `None` when `DalekKeyPair::from_secret_seed` refuses the seed.
pub uninterp spec fn seed_account_id(seed: Seq<char>) -> Option<Seq<char>>;

/// The XDR (base64) of the payment operation that `stellar_base` builds
/// for `stroops` of the credit asset `asset_code` issued by `issuer` to the
/// destination key (multiplexed with the id when there is one), `None`
/// when `stellar_base` refuses one of the parts.
pub uninterp spec fn payment_operation_xdr(
    destination_key: Seq<u8>,
    destination_id: Option<u64>,
    asset_code: Seq<char>,
    issuer: Seq<char>,
    stroops: i64,
) -> Option<Seq<char>>;

/// The envelope XDR (base64) and the hash of the transaction `stellar_base`
/// builds from the seed's account with `sequence`, the base fee, the
/// operation and the id memo, signed with the seed's key for the network
/// of `passphrase`; `None` when `stellar_base` refuses one of the steps.
pub uninterp spec fn signed_payment(
    seed: Seq<char>,
    passphrase: Seq<char>,
    sequence: i64,
    operation_xdr: Seq<char>,
    memo_id: Option<u64>,
) -> Option<(Seq<char>, Seq<u8>)>;

/// The account id of the distribution key pair
/// (`DalekKeyPair::from_secret_seed`, then `public_key().account_id()`).
#[verifier::external_body]
pub fn distribution_account_id(seed: &str) -> (r: Result<String, stellar_base::error::Error>)
    ensures
        r is Ok <==> seed_account_id(seed@) is Some,
        r matches Ok(s) ==> seed_account_id(seed@) == Some(s@),
{
    DalekKeyPair::from_secret_seed(seed).map(|k| k.public_key().account_id())
}

/// Builds a payment operation (`Operation::new_payment` with the
/// destination, amount and credit asset) and writes its XDR.
#[verifier::external_body]
fn payment_operation(
    destination_key: &Vec<u8>,
    destination_id: Option<u64>,
    asset_code: &str,
    issuer: &str,
    stroops: i64,
) -> (r: Result<String, stellar_base::error::Error>)
    ensures
        r is Ok <==> payment_operation_xdr(destination_key@, destination_id, asset_code@, issuer@, stroops) is Some,
        r matches Ok(x) ==> payment_operation_xdr(destination_key@, destination_id, asset_code@, issuer@, stroops) == Some(x@),
{
    let destination: stellar_base::crypto::MuxedAccount = match destination_id {
        Some(id) => MuxedEd25519PublicKey::from_slice(destination_key, id)?.into(),
        None => PublicKey::from_slice(destination_key)?.into(),
    };
    let asset = Asset::new_credit(asset_code, PublicKey::from_account_id(issuer)?)?;
    let op = Operation::new_payment().with_destination(destination).with_amount(Stroops::new(stroops))?;
    op.with_asset(asset).build()?.xdr_base64()
}

/// Builds the transaction (`Transaction::builder` with the base fee, the
/// operation and the memo), signs it (`Transaction::sign`) and hashes it
/// (`Transaction::hash`); the envelope XDR and the hash.
#[verifier::external_body]
fn sign_payment(
    seed: &str,
    passphrase: &str,
    sequence: i64,
    operation_xdr: &str,
    memo_id: Option<u64>,
) -> (r: Result<(String, Vec<u8>), stellar_base::error::Error>)
    ensures
        r is Ok <==> signed_payment(seed@, passphrase@, sequence, operation_xdr@, memo_id) is Some,
        r matches Ok(p) ==> signed_payment(seed@, passphrase@, sequence, operation_xdr@, memo_id) == Some((p.0@, p.1@)),
{
    let key = DalekKeyPair::from_secret_seed(seed)?;
    let network = Network::new(passphrase.to_string());
    let op = Operation::from_xdr_base64(operation_xdr)?;
    let builder = Transaction::builder(key.public_key(), sequence, MIN_BASE_FEE).add_operation(op);
    let mut tx = builder.with_memo(memo_id.map_or(Memo::None, Memo::new_id)).into_transaction()?;
    tx.sign(key.as_ref(), &network)?;
    let hash = tx.hash(&network)?;
    Ok((tx.into_envelope().xdr_base64()?, hash))
}

/// The text of a `stellar_base` error (its `Display`). The text itself is
/// left unsaid.
#[verifier::external_body]
fn stellar_error_text(e: &stellar_base::error::Error) -> String {
    e.to_string()
}

/// The lowercase hexadecimal digit of a value below 16.
pub open spec fn hex_digit(v: int) -> char {
    "0123456789abcdef"@[v]
}

/// The lowercase hexadecimal text of bytes, two digits per byte, high
/// nibble first (what `hex::encode` writes).
pub open spec fn hex_text(bytes: Seq<u8>) -> Seq<char>
    decreases bytes.len(),
{
    if bytes.len() == 0 {
        seq![]
    } else {
        hex_text(bytes.drop_last()) + seq![hex_digit(bytes.last() as int / 16), hex_digit(bytes.last() as int % 16)]
    }
}

/// The lowercase hexadecimal text of `bytes`.
pub fn hex_encode(bytes: &Vec<u8>) -> (r: String)
    ensures
        r@ == hex_text(bytes@),
{
    let mut out = String::new();
    let mut i: usize = 0;
    while i < bytes.len()
        invariant
            i <= bytes@.len(),
            out@ == hex_text(bytes@.subrange(0, i as int)),
        decreases bytes@.len() - i,
    {
        let b = bytes[i];
        let ghost pre = bytes@.subrange(0, i as int);
        assert(bytes@.subrange(0, i + 1).drop_last() =~= pre);
        let digits = "0123456789abcdef";
        proof {
            reveal_strlit("0123456789abcdef");
        }
        let hi = (b / 16) as usize;
        let lo = (b % 16) as usize;
        out.append(digits.substring_char(hi, hi + 1));
        out.append(digits.substring_char(lo, lo + 1));
        assert(out@ =~= hex_text(bytes@.subrange(0, i + 1)));
        i = i + 1;
    }
    assert(bytes@.subrange(0, bytes@.len() as int) =~= bytes@);
    out
}

/// The key and the multiplexing id of a destination.
pub open spec fn destination_parts(d: MuxedAccount) -> (Seq<u8>, Option<u64>) {
    match d {
        MuxedAccount::Ed25519(k) => (k@, None),
        MuxedAccount::MuxedEd25519(m) => (m.key@, Some(m.id)),
    }
}

/// The signed payment of `stroops` of `asset_code` (issued by the
/// distribution account) to `destination`, from the distribution account
/// of `seed` with `sequence`, on the network of `passphrase`.
pub open spec fn payment_outcome(
    seed: Seq<char>,
    passphrase: Seq<char>,
    sequence: i64,
    destination: MuxedAccount,
    asset_code: Seq<char>,
    stroops: i64,
    memo_id: Option<u64>,
) -> Option<(Seq<char>, Seq<u8>)> {
    match seed_account_id(seed) {
        None => None,
        Some(issuer) => {
            let parts = destination_parts(destination);
            match payment_operation_xdr(parts.0, parts.1, asset_code, issuer, stroops) {
                None => None,
                Some(op) => signed_payment(seed, passphrase, sequence, op, memo_id),
            }
        },
    }
}

/// A payment ready to be submitted: its plan, the signed envelope (XDR,
/// base64) and the transaction hash in hexadecimal.
pub struct SignedPayment {
    pub plan: PaymentPlan,
    pub envelope_xdr: String,
    pub hash: String,
}

/// What building the payment gives: the amount's errors first; then the
/// signed payment, or a `stellar_base` error when it refuses a step.
pub open spec fn build_payment_post(
    seed: Seq<char>,
    passphrase: Seq<char>,
    current_sequence: i64,
    destination: MuxedAccount,
    asset_code: Seq<char>,
    amount: Amount,
    memo_id: Option<u64>,
    r: Result<SignedPayment, LedgerError>,
) -> bool {
    match r {
        Ok(p) => {
            &&& p.plan.sequence == current_sequence + 1
            &&& p.plan.memo_id == memo_id
            &&& payment_stroops_post(amount@, Ok(p.plan.stroops))
            &&& payment_outcome(seed, passphrase, p.plan.sequence, destination, asset_code, p.plan.stroops, memo_id)
                matches Some(o) && p.envelope_xdr@ == o.0 && p.hash@ == hex_text(o.1)
        },
        Err(e) => payment_stroops_post(amount@, Err(e)) || {
            &&& e is Base
            &&& exists|stroops: i64| payment_stroops_post(amount@, Ok(stroops))
                && payment_outcome(seed, passphrase, (current_sequence + 1) as i64, destination, asset_code, stroops, memo_id) is None
        },
    }
}

/// Law: a built payment is the one asked for. It is sent with the next
/// sequence number and carries the memo the caller asked for: the memo
/// handed to the signing step is the requested one, so the signed envelope
/// and its hash are those of the transaction that carries that memo (none
/// when none was asked for). It pays the requested amount in stroops, with
/// the payment operation built for the destination's key and id and for the
/// asset issued by the seed's own account.
pub proof fn lemma_built_payment_is_the_requested_one(
    seed: Seq<char>,
    passphrase: Seq<char>,
    current_sequence: i64,
    destination: MuxedAccount,
    asset_code: Seq<char>,
    amount: Amount,
    memo_id: Option<u64>,
    r: Result<SignedPayment, LedgerError>,
)
    requires
        current_sequence < i64::MAX,
        build_payment_post(seed, passphrase, current_sequence, destination, asset_code, amount, memo_id, r),
    ensures
        r matches Ok(p) ==> {
            &&& p.plan.memo_id == memo_id
            &&& p.plan.sequence == current_sequence + 1
            &&& decimal_from_str(decimal_display(amount@)) matches Some(x)
                && x.scale <= 7 && p.plan.stroops == x.mantissa * pow10((7 - x.scale) as nat)
            &&& seed_account_id(seed) matches Some(issuer)
            &&& payment_operation_xdr(
                match destination { MuxedAccount::Ed25519(k) => k@, MuxedAccount::MuxedEd25519(m) => m.key@ },
                match destination { MuxedAccount::Ed25519(_) => None, MuxedAccount::MuxedEd25519(m) => Some(m.id) },
                asset_code, issuer, p.plan.stroops) matches Some(op)
            &&& signed_payment(seed, passphrase, (current_sequence + 1) as i64, op, memo_id) matches Some(signed)
            &&& p.envelope_xdr@ == signed.0
            &&& p.hash@ == hex_text(signed.1)
        },
{
}

/// Builds, signs and hashes the payment of `amount` of the anchor's asset
/// from the distribution account (current sequence `current_sequence`) to
/// `destination`, with the id memo when there is one.
pub fn build_payment(
    seed: &str,
    passphrase: &str,
    current_sequence: i64,
    destination: &MuxedAccount,
    asset_code: &str,
    amount: Amount,
    memo_id: Option<u64>,
) -> (r: Result<SignedPayment, LedgerError>)
    requires
        current_sequence < i64::MAX,
    ensures
        build_payment_post(seed@, passphrase@, current_sequence, *destination, asset_code@, amount, memo_id, r),
{
    let plan = plan_payment(current_sequence, amount, memo_id)?;
    let issuer = match distribution_account_id(seed) {
        Ok(a) => a,
        Err(e) => return Err(LedgerError::Base(stellar_error_text(&e))),
    };
    let (key, id) = match destination {
        MuxedAccount::Ed25519(k) => (k, None),
        MuxedAccount::MuxedEd25519(m) => (&m.key, Some(m.id)),
    };
    let op = match payment_operation(key, id, asset_code, issuer.as_str(), plan.stroops) {
        Ok(x) => x,
        Err(e) => return Err(LedgerError::Base(stellar_error_text(&e))),
    };
    let (envelope_xdr, hash_bytes) = match sign_payment(seed, passphrase, plan.sequence, op.as_str(), plan.memo_id) {
        Ok(p) => p,
        Err(e) => return Err(LedgerError::Base(stellar_error_text(&e))),
    };
    let hash = hex_encode(&hash_bytes);
    Ok(SignedPayment { plan, envelope_xdr, hash })
}

} // verus!
