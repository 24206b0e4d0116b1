//! The SEP-31 receive state machine: what happens when the funds of a
//! receive arrive, and when its receiver's KYC is updated later.

use vstd::prelude::*;
use crate::db::sep31_transactions::Sep31Transaction;
use crate::kyc::{FieldSpec, FieldModel, field_models, required_fields, required_field_models, split_fields,
    missing_models, texts, model_names, bank_models};
use crate::text::str_eq;

verus! {

/// The 128-bit value `uuid` parses from the text (hyphenated, simple,
/// braced or URN form), `None` when it rejects it.
pub uninterp spec fn uuid_from_text(s: Seq<char>) -> Option<u128>;

/// Parses a UUID (`uuid::Uuid::parse_str`).
#[verifier::external_body]
fn parse_uuid(s: &str) -> (r: Option<u128>)
    ensures
        r == uuid_from_text(s@),
{
    uuid::Uuid::parse_str(s).ok().map(|u| u.as_u128())
}

/// The text reads as a version 4 UUID of the RFC variant: version
/// nibble 4, variant bits `10`.
pub open spec fn is_v4_uuid_text(s: Seq<char>) -> bool {
    uuid_from_text(s) matches Some(u) && (u >> 76u128) & 0xfu128 == 4 && (u >> 62u128) & 0x3u128 == 2
}

/// A fresh random UUID (`uuid::Uuid::new_v4`) in the hyphenated text its
/// `Display` writes: 36 characters, which `Uuid::parse_str` reads back as
/// a version 4 UUID of the RFC variant. Its random bits are left open.
#[verifier::external_body]
pub(crate) fn random_uuid_text() -> (r: String)
    ensures
        r@.len() == 36,
        is_v4_uuid_text(r@),
{
    uuid::Uuid::new_v4().to_string()
}

/// `names` joined with `sep` between them.
pub open spec fn join(names: Seq<Seq<char>>, sep: Seq<char>) -> Seq<char>
    decreases names.len(),
{
    if names.len() == 0 {
        seq![]
    } else if names.len() == 1 {
        names[0]
    } else {
        join(names.drop_last(), sep) + sep + names.last()
    }
}

/// The receiver KYC verdict for the provided field names: complete when
/// every `sep31-receiver` field is provided, else the message naming the
/// missing ones.
pub open spec fn receiver_kyc_model(provided: Seq<Seq<char>>) -> (bool, Seq<char>) {
    let missing = missing_models(bank_models(), provided);
    if missing.len() == 0 {
        (true, seq![])
    } else {
        (false, "missing required receiver KYC fields: "@ + join(model_names(missing), ", "@))
    }
}

fn join_names(fields: &Vec<FieldSpec>, sep: &str) -> (r: String)
    ensures
        r@ == join(model_names(field_models(fields@)), sep@),
{
    let mut out = String::new();
    let mut i: usize = 0;
    while i < fields.len()
        invariant
            i <= fields@.len(),
            out@ == join(model_names(field_models(fields@.subrange(0, i as int))), sep@),
        decreases fields@.len() - i,
    {
        let ghost pre = model_names(field_models(fields@.subrange(0, i as int)));
        let ghost next = model_names(field_models(fields@.subrange(0, i + 1)));
        assert(next.drop_last() =~= pre);
        assert(next.last() == fields@[i as int].name@);
        if i > 0 {
            out.append(sep);
        }
        out.append(fields[i].name);
        proof {
            if i == 0 {
                assert(next.len() == 1);
                assert(out@ =~= next[0]);
            }
        }
        i = i + 1;
    }
    assert(fields@.subrange(0, fields@.len() as int) =~= fields@);
    out
}

/// The receiver KYC verdict for a receiver whose stored customer (if any)
/// has provided the fields named in `provided`.
pub fn receiver_kyc_status(provided: &Vec<String>) -> (r: (bool, String))
    ensures
        (r.0, r.1@) == receiver_kyc_model(texts(provided@)),
{
    let required = required_fields("sep31-receiver");
    proof {
        crate::kyc::lemma_requirement_composition();
    }
    let (missing, _) = split_fields(&required, provided);
    if missing.len() == 0 {
        (true, String::new())
    } else {
        let mut msg = String::from_str("missing required receiver KYC fields: ");
        let names = join_names(&missing, ", ");
        msg.append(names.as_str());
        (false, msg)
    }
}

/// The verdict for a receiver id that is no UUID.
pub open spec fn invalid_receiver_message() -> Seq<char> {
    "invalid receiver_id"@
}

/// Whose KYC a receiver id asks to check: the customer the UUID names, or,
/// for an id that is no UUID, directly the verdict that the receiver is
/// not complete, with the message saying so.
pub fn receiver_check_target(receiver_id: &str) -> (r: Result<u128, (bool, String)>)
    ensures
        match uuid_from_text(receiver_id@) {
            Some(id) => r == Ok::<u128, (bool, String)>(id),
            None => r matches Err(v) && !v.0 && v.1@ == invalid_receiver_message(),
        },
{
    match parse_uuid(receiver_id) {
        Some(id) => Ok(id),
        None => Err((false, String::from_str("invalid receiver_id"))),
    }
}

/// What to do next once the funds of a receive have arrived.
pub enum AfterFunds {
    /// No receiver KYC is configured: settle now.
    Settle,
    /// Check the KYC of this receiver first.
    CheckReceiver(String),
}

/// The result of a receiver KYC check: complete or not (with the message
/// of what is missing), or the lookup failed with the given error text.
pub type KycCheck = Result<(bool, String), String>;

/// What a KYC check decides for a receive.
pub enum ReceiveAction {
    /// Settle with the given incoming payment hash.
    Settle(String),
    /// Ask for the missing information, recording the message and hash.
    RequireInfo { message: String, incoming_hash: String },
    /// Nothing to do now.
    Wait,
}

/// Once the funds of `tx` arrived: settle directly when it has no
/// receiver, else check that receiver's KYC.
pub fn after_funds_received(tx: &Sep31Transaction) -> (r: AfterFunds)
    ensures
        match tx.receiver_id {
            None => r is Settle,
            Some(id) => r matches AfterFunds::CheckReceiver(x) && x@ == id@,
        },
{
    match &tx.receiver_id {
        None => AfterFunds::Settle,
        Some(id) => AfterFunds::CheckReceiver(id.clone()),
    }
}

/// What the KYC check after the arrival of funds (with hash
/// `incoming_hash`) decides: settle when complete, ask for the missing
/// information when not, wait when the check failed.
pub open spec fn after_check_spec(kyc: KycCheck, incoming_hash: Seq<char>, r: ReceiveAction) -> bool {
    match kyc {
        Ok((true, _)) => r matches ReceiveAction::Settle(h) && h@ == incoming_hash,
        Ok((false, msg)) => r matches ReceiveAction::RequireInfo { message, incoming_hash: h }
            && message@ == msg@ && h@ == incoming_hash,
        Err(_) => r is Wait,
    }
}

/// Decides a receive after the KYC check that followed its funds.
pub fn after_receiver_check(kyc: &KycCheck, incoming_hash: &str) -> (r: ReceiveAction)
    ensures
        after_check_spec(*kyc, incoming_hash@, r),
{
    match kyc {
        Ok((true, _)) => ReceiveAction::Settle(String::from_str(incoming_hash)),
        Ok((false, msg)) => ReceiveAction::RequireInfo { message: msg.clone(), incoming_hash: String::from_str(incoming_hash) },
        Err(_) => ReceiveAction::Wait,
    }
}

/// A receive waiting on receiver KYC can be resumed when it names its
/// receiver and recorded the hash of the payment that arrived.
pub fn resume_candidate(tx: &Sep31Transaction) -> (r: Option<(String, String)>)
    ensures
        match (tx.receiver_id, tx.stellar_transaction_id) {
            (Some(id), Some(h)) => r matches Some(p) && p.0@ == id@ && p.1@ == h@,
            _ => r is None,
        },
{
    match (&tx.receiver_id, &tx.stellar_transaction_id) {
        (Some(id), Some(h)) => Some((id.clone(), h.clone())),
        _ => None,
    }
}

/// What a KYC re-check of a waiting receive decides: settle with the
/// recorded hash once complete, otherwise leave it waiting.
pub open spec fn resume_spec(kyc: KycCheck, recorded_hash: Seq<char>, r: ReceiveAction) -> bool {
    match kyc {
        Ok((true, _)) => r matches ReceiveAction::Settle(h) && h@ == recorded_hash,
        _ => r is Wait,
    }
}

/// Decides a waiting receive after a KYC re-check.
pub fn resume_after_check(kyc: &KycCheck, recorded_hash: &str) -> (r: ReceiveAction)
    ensures
        resume_spec(*kyc, recorded_hash@, r),
{
    match kyc {
        Ok((true, _)) => ReceiveAction::Settle(String::from_str(recorded_hash)),
        _ => ReceiveAction::Wait,
    }
}

/// The reference of the simulated off-chain payout: `SIMULATED-` and a
/// fresh UUID.
pub fn simulated_reference() -> (r: String)
    ensures
        exists|id: Seq<char>| r@ == "SIMULATED-"@ + id && id.len() == 36
            && is_v4_uuid_text(id),
{
    let mut r = String::from_str("SIMULATED-");
    let id = random_uuid_text();
    r.append(id.as_str());
    assert(r@ == "SIMULATED-"@ + id@);
    r
}

/// `after` is the record of the receive `before` once receiver information
/// was asked for: status `pending_customer_info_update`, the message, the
/// hash of the payment that arrived, and everything else unchanged.
pub open spec fn records_required_info(before: Sep31Transaction, after: Sep31Transaction, message: Seq<char>, incoming_hash: Seq<char>) -> bool {
    &&& after.status@ == "pending_customer_info_update"@
    &&& after.required_info_message matches Some(m) && m@ == message
    &&& after.stellar_transaction_id matches Some(h) && h@ == incoming_hash
    &&& after.id == before.id
    &&& after.platform_transaction_id == before.platform_transaction_id
    &&& after.receiver_id == before.receiver_id
    &&& after.amount_in == before.amount_in
    &&& after.amount_out == before.amount_out
    &&& after.stellar_memo == before.stellar_memo
}

/// Law: a receive is settled only when it has no receiver or its
/// receiver's KYC check came back complete; and a receive that was asked
/// for information is settled, once its receiver is complete, with the
/// hash of the very payment that arrived.
pub proof fn lemma_settlement_is_kyc_gated(
    tx: Sep31Transaction,
    kyc: KycCheck,
    incoming_hash: Seq<char>,
    r: ReceiveAction,
)
    requires
        after_check_spec(kyc, incoming_hash, r),
    ensures
        r is Settle ==> kyc matches Ok((true, _)),
        r matches ReceiveAction::RequireInfo { message, incoming_hash: h } ==>
            forall|waiting: Sep31Transaction, recheck: KycCheck, r2: ReceiveAction|
                #![trigger records_required_info(tx, waiting, message@, h@), resume_spec(recheck, waiting.stellar_transaction_id.unwrap()@, r2)]
                (records_required_info(tx, waiting, message@, h@)
                    && resume_spec(recheck, waiting.stellar_transaction_id.unwrap()@, r2)
                    && (recheck matches Ok((true, _))))
                ==> (r2 matches ReceiveAction::Settle(h2) && h2@ == incoming_hash),
{
}

/// Law: receiver KYC is complete exactly when every `sep31-receiver`
/// field has been provided, and then the message is empty.
pub proof fn lemma_receiver_kyc_complete(provided: Seq<Seq<char>>)
    ensures
        receiver_kyc_model(provided).0 <==> (forall|i: int| 0 <= i < bank_models().len()
            ==> provided.contains(#[trigger] bank_models()[i].name)),
        receiver_kyc_model(provided).0 ==> receiver_kyc_model(provided).1 == Seq::<char>::empty(),
{
    crate::kyc::lemma_split_partitions(bank_models(), provided);
}

} // verus!
