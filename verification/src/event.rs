//! `POST /event`: which platform events this anchor acts on, and what a
//! `transaction_created` event for SEP-24 or SEP-31 records and assigns.

use vstd::prelude::*;
use crate::amount::{Amount, AmountModel, model, opt_model, decimal_checked_sub, decimal_display, exact_sub_fits,
    sum_is, lemma_difference_adds_up};
use crate::clock::Timestamp;
use crate::db::sep24_transactions::NewTransaction as NewSep24Transaction;
use crate::db::sep31_transactions::NewTransaction as NewSep31Transaction;
use crate::error::{AppError, bad_request, internal};
use crate::platform_api::{RpcAmount, WithdrawalDestination};
use crate::text::{str_eq, u64_to_decimal, decimal_text, parse_u64_spec, lemma_decimal_round_trip};

verus! {

/// A platform event: its type and payload.
pub struct EventRequest {
    pub event_type: String,
    pub payload: EventPayload,
}

/// The payload of an event; transaction events carry the transaction.
pub struct EventPayload {
    pub transaction: Option<EventTransaction>,
}

/// An amount in an event, with its asset.
pub struct EventAmount {
    pub amount: Amount,
    pub asset: Option<String>,
}

/// The transaction of a transaction event.
pub struct EventTransaction {
    pub platform_transaction_id: String,
    pub sep: u8,
    pub kind: String,
    pub status: String,
    pub account: Option<String>,
    pub memo: Option<String>,
    pub memo_type: Option<String>,
    pub asset_code: Option<String>,
    pub amount_in: Option<EventAmount>,
    pub amount_out: Option<EventAmount>,
    pub fee_total: Option<Amount>,
    pub sender_id: Option<String>,
    pub receiver_id: Option<String>,
    pub started_at: Option<Timestamp>,
}

/// What the anchor does with an event.
pub enum EventAction {
    Ignore,
    Sep24Created(EventTransaction),
    Sep31Created(EventTransaction),
}

/// What is recorded and assigned for a created SEP-24 transaction: a
/// withdrawal gets an on-chain destination, a deposit none.
pub struct Sep24CreatedPlan {
    pub record: NewSep24Transaction,
    pub destination: Option<WithdrawalDestination>,
}

/// What is recorded and assigned for a created SEP-31 transaction.
pub struct Sep31CreatedPlan {
    pub record: NewSep31Transaction,
    pub destination: WithdrawalDestination,
}

/// A `transaction_created` event carrying a SEP-24 or SEP-31 transaction
/// is acted on; every other event (status changes, other SEPs, unknown
/// types, a missing transaction) is acknowledged and ignored.
pub open spec fn event_action_spec(event_type: Seq<char>, tx: Option<EventTransaction>) -> int {
    if event_type == "transaction_created"@ {
        match tx {
            Some(t) => if t.sep == 24 { 24 } else if t.sep == 31 { 31 } else { 0 },
            None => 0,
        }
    } else {
        0
    }
}

/// Routes an event to its handling.
pub fn route_event(request: EventRequest) -> (r: EventAction)
    ensures
        event_action_spec(request.event_type@, request.payload.transaction) == 24
            ==> r == EventAction::Sep24Created(request.payload.transaction.unwrap()),
        event_action_spec(request.event_type@, request.payload.transaction) == 31
            ==> r == EventAction::Sep31Created(request.payload.transaction.unwrap()),
        event_action_spec(request.event_type@, request.payload.transaction) == 0 ==> r is Ignore,
{
    if str_eq(request.event_type.as_str(), "transaction_created") {
        match request.payload.transaction {
            Some(tx) => {
                if tx.sep == 24 {
                    EventAction::Sep24Created(tx)
                } else if tx.sep == 31 {
                    EventAction::Sep31Created(tx)
                } else {
                    EventAction::Ignore
                }
            },
            None => EventAction::Ignore,
        }
    } else {
        EventAction::Ignore
    }
}

/// Law: an event is acted on only when its type is exactly
/// `transaction_created` and it carries a SEP-24 or SEP-31 transaction,
/// which is then handed on unchanged; every other event (status changes,
/// customer changes, unknown types) is ignored.
pub proof fn lemma_only_created_transactions_are_acted_on(request: EventRequest, r: EventAction)
    requires
        event_action_spec(request.event_type@, request.payload.transaction) == 24
            ==> r == EventAction::Sep24Created(request.payload.transaction.unwrap()),
        event_action_spec(request.event_type@, request.payload.transaction) == 31
            ==> r == EventAction::Sep31Created(request.payload.transaction.unwrap()),
        event_action_spec(request.event_type@, request.payload.transaction) == 0 ==> r is Ignore,
    ensures
        request.event_type@ != "transaction_created"@ ==> r is Ignore,
        request.payload.transaction is None ==> r is Ignore,
        r matches EventAction::Sep24Created(t) ==> request.event_type@ == "transaction_created"@
            && request.payload.transaction == Some(t) && t.sep == 24,
        r matches EventAction::Sep31Created(t) ==> request.event_type@ == "transaction_created"@
            && request.payload.transaction == Some(t) && t.sep == 31,
        request.event_type@ == "transaction_created"@ ==> match request.payload.transaction {
            Some(t) => if t.sep == 24 { r == EventAction::Sep24Created(t) }
                else if t.sep == 31 { r == EventAction::Sep31Created(t) }
                else { r is Ignore },
            None => r is Ignore,
        },
{
}

/// A uniformly random `u32` (`rand::random`).
#[verifier::external_body]
fn random_u32() -> u32 {
    rand::random::<u32>()
}

/// The memo allocated from a random draw: the draw plus one, in decimal.
pub open spec fn memo_model(random: u32) -> Seq<char> {
    decimal_text((random as nat + 1) as nat)
}

/// The decimal memo `random + 1`.
pub fn memo_text(random: u32) -> (r: String)
    ensures
        r@ == memo_model(random),
        parse_u64_spec(r@) == Some((random as u64 + 1) as u64),
{
    let m: u64 = random as u64 + 1;
    proof {
        lemma_decimal_round_trip(m);
    }
    u64_to_decimal(m)
}

/// Law: an allocated memo is a positive number of at most `2^32`, and its
/// text reads back as that number.
pub proof fn lemma_memo_in_range(random: u32)
    ensures
        parse_u64_spec(memo_model(random)) matches Some(m) && 1 <= m <= 0x1_0000_0000,
{
    lemma_decimal_round_trip((random as u64 + 1) as u64);
}

/// The optional amount of an optional event amount.
pub open spec fn event_amount_model(a: Option<EventAmount>) -> Option<AmountModel> {
    match a {
        Some(x) => Some(x.amount@),
        None => None,
    }
}

fn event_amount(a: &Option<EventAmount>) -> (r: Option<Amount>)
    ensures
        opt_model(r) == event_amount_model(*a),
{
    match a {
        Some(x) => Some(x.amount),
        None => None,
    }
}

/// The asset code of a transaction, the configured one when absent.
pub open spec fn asset_code_model(t: Option<String>, default_asset_code: Seq<char>) -> Seq<char> {
    match t {
        Some(s) => s@,
        None => default_asset_code,
    }
}

fn asset_code_or(t: &Option<String>, default_asset_code: &str) -> (r: String)
    ensures
        r@ == asset_code_model(*t, default_asset_code@),
{
    match t {
        Some(s) => s.clone(),
        None => String::from_str(default_asset_code),
    }
}

pub open spec fn missing_account_message() -> Seq<char> {
    "transaction_created missing account"@
}

pub open spec fn missing_amount_in_message() -> Seq<char> {
    "transaction_created missing amount_in"@
}

/// The text of an optional amount, empty when absent.
pub open spec fn amount_text_or_empty(a: Option<AmountModel>) -> Seq<char> {
    match a {
        Some(x) => decimal_display(x),
        None => seq![],
    }
}

/// What a created SEP-24 transaction leads to, the memo drawn as `random`.
pub open spec fn sep24_created_post(
    tx: EventTransaction,
    default_asset_code: Seq<char>,
    distribution_account: Seq<char>,
    random: u32,
    r: Result<Sep24CreatedPlan, AppError>,
) -> bool {
    match tx.account {
        None => r matches Err(e) && bad_request(e, missing_account_message()),
        Some(account) => r matches Ok(p) && {
            let rec = p.record;
            &&& rec.platform_transaction_id@ == tx.platform_transaction_id@
            &&& rec.account@ == account@
            &&& rec.asset_code@ == asset_code_model(tx.asset_code, default_asset_code)
            &&& opt_model(rec.amount_in) == event_amount_model(tx.amount_in)
            &&& if tx.kind@ == "withdrawal"@ {
                &&& rec.kind@ == "withdrawal"@
                &&& rec.memo is None
                &&& rec.memo_type is None
                &&& rec.withdraw_memo matches Some(m) && m@ == memo_model(random)
                &&& p.destination matches Some(d) && {
                    &&& d.transaction_id@ == tx.platform_transaction_id@
                    &&& d.destination_account@ == distribution_account
                    &&& d.memo@ == memo_model(random)
                    &&& d.memo_type@ == "id"@
                    &&& d.amount_in@ == amount_text_or_empty(event_amount_model(tx.amount_in))
                }
            } else {
                &&& rec.kind@ == "deposit"@
                &&& rec.memo == tx.memo
                &&& rec.memo_type == tx.memo_type
                &&& rec.withdraw_memo is None
                &&& p.destination is None
            }
        },
    }
}

fn amount_text(a: &Option<Amount>) -> (r: String)
    ensures
        r@ == amount_text_or_empty(opt_model(*a)),
{
    match a {
        Some(x) => Amount::decimal_display_call(x),
        None => String::new(),
    }
}

/// Plans a created SEP-24 transaction with the memo drawn as `random`:
/// the account is required; a withdrawal is recorded with a fresh memo and
/// assigned the distribution account as destination; anything else is
/// recorded as a deposit with the wallet's own memo.
pub fn plan_sep24_created_with(
    tx: &EventTransaction,
    default_asset_code: &str,
    distribution_account: &str,
    random: u32,
) -> (r: Result<Sep24CreatedPlan, AppError>)
    ensures
        sep24_created_post(*tx, default_asset_code@, distribution_account@, random, r),
{
    let asset_code = asset_code_or(&tx.asset_code, default_asset_code);
    let account = match &tx.account {
        Some(a) => a.clone(),
        None => return Err(AppError::BadRequest(String::from_str("transaction_created missing account"))),
    };
    let amount_in = event_amount(&tx.amount_in);
    if str_eq(tx.kind.as_str(), "withdrawal") {
        let memo = memo_text(random);
        let destination = WithdrawalDestination {
            transaction_id: tx.platform_transaction_id.clone(),
            destination_account: String::from_str(distribution_account),
            memo: memo.clone(),
            memo_type: String::from_str("id"),
            amount_in: amount_text(&amount_in),
        };
        let record = NewSep24Transaction {
            platform_transaction_id: tx.platform_transaction_id.clone(),
            kind: String::from_str("withdrawal"),
            account,
            memo: None,
            memo_type: None,
            asset_code,
            amount_in,
            withdraw_memo: Some(memo),
        };
        Ok(Sep24CreatedPlan { record, destination: Some(destination) })
    } else {
        let record = NewSep24Transaction {
            platform_transaction_id: tx.platform_transaction_id.clone(),
            kind: String::from_str("deposit"),
            account,
            memo: tx.memo.clone(),
            memo_type: tx.memo_type.clone(),
            asset_code,
            amount_in,
            withdraw_memo: None,
        };
        Ok(Sep24CreatedPlan { record, destination: None })
    }
}

/// Plans a created SEP-24 transaction, drawing its memo at random.
pub fn plan_sep24_created(tx: &EventTransaction, default_asset_code: &str, distribution_account: &str) -> (r: Result<Sep24CreatedPlan, AppError>)
    ensures
        exists|random: u32| sep24_created_post(*tx, default_asset_code@, distribution_account@, random, r),
{
    let random = random_u32();
    plan_sep24_created_with(tx, default_asset_code, distribution_account, random)
}

/// The fee of a created SEP-31 transaction, zero when absent.
pub open spec fn fee_model(fee: Option<Amount>) -> AmountModel {
    match fee {
        Some(f) => f@,
        None => model(0, 0),
    }
}

/// What a created SEP-31 transaction leads to, the memo drawn as `random`.
pub open spec fn sep31_created_post(
    tx: EventTransaction,
    default_asset_code: Seq<char>,
    distribution_account: Seq<char>,
    random: u32,
    r: Result<Sep31CreatedPlan, AppError>,
) -> bool {
    match tx.account {
        None => r matches Err(e) && bad_request(e, missing_account_message()),
        Some(account) => match tx.amount_in {
            None => r matches Err(e) && bad_request(e, missing_amount_in_message()),
            Some(amount_in) => match decimal_checked_sub(amount_in.amount@, fee_model(tx.fee_total)) {
                None => r matches Err(e) && internal(e, "amount out of range"@),
                Some(net) => r matches Ok(p) && {
                    let rec = p.record;
                    &&& rec.platform_transaction_id@ == tx.platform_transaction_id@
                    &&& rec.creator_account@ == account@
                    &&& rec.creator_memo == tx.memo
                    &&& rec.asset_code@ == asset_code_model(tx.asset_code, default_asset_code)
                    &&& rec.amount_in@ == amount_in.amount@
                    &&& opt_model(rec.fee) == Some(fee_model(tx.fee_total))
                    &&& exact_sub_fits(amount_in.amount@, fee_model(tx.fee_total))
                        ==> sum_is(net, fee_model(tx.fee_total), amount_in.amount@)
                    &&& opt_model(rec.amount_out) == Some(match tx.amount_out {
                        Some(o) => o.amount@,
                        None => net,
                    })
                    &&& rec.sender_id == tx.sender_id
                    &&& rec.receiver_id == tx.receiver_id
                    &&& rec.stellar_memo@ == memo_model(random)
                    &&& p.destination.transaction_id@ == tx.platform_transaction_id@
                    &&& p.destination.destination_account@ == distribution_account
                    &&& p.destination.memo@ == memo_model(random)
                    &&& p.destination.memo_type@ == "id"@
                    &&& p.destination.amount_in@ == decimal_display(amount_in.amount@)
                },
            },
        },
    }
}

/// Plans a created SEP-31 transaction with the memo drawn as `random`: the
/// account and the amount in are required; the fee defaults to zero and
/// the amount out to the amount in less the fee; the receive is assigned
/// the distribution account and a fresh memo.
pub fn plan_sep31_created_with(
    tx: &EventTransaction,
    default_asset_code: &str,
    distribution_account: &str,
    random: u32,
) -> (r: Result<Sep31CreatedPlan, AppError>)
    ensures
        sep31_created_post(*tx, default_asset_code@, distribution_account@, random, r),
{
    let asset_code = asset_code_or(&tx.asset_code, default_asset_code);
    let account = match &tx.account {
        Some(a) => a.clone(),
        None => return Err(AppError::BadRequest(String::from_str("transaction_created missing account"))),
    };
    let amount_in = match &tx.amount_in {
        Some(a) => a.amount,
        None => return Err(AppError::BadRequest(String::from_str("transaction_created missing amount_in"))),
    };
    let fee = match tx.fee_total {
        Some(f) => f,
        None => Amount::zero(),
    };
    let net = match Amount::decimal_checked_sub_call(&amount_in, &fee) {
        Some(n) => n,
        None => return Err(AppError::Internal(String::from_str("amount out of range"))),
    };
    proof {
        if exact_sub_fits(amount_in@, fee@) {
            lemma_difference_adds_up(amount_in@, fee@, net@);
        }
    }
    let amount_out = match &tx.amount_out {
        Some(o) => o.amount,
        None => net,
    };
    let memo = memo_text(random);
    let destination = WithdrawalDestination {
        transaction_id: tx.platform_transaction_id.clone(),
        destination_account: String::from_str(distribution_account),
        memo: memo.clone(),
        memo_type: String::from_str("id"),
        amount_in: Amount::decimal_display_call(&amount_in),
    };
    let record = NewSep31Transaction {
        platform_transaction_id: tx.platform_transaction_id.clone(),
        creator_account: account,
        creator_memo: tx.memo.clone(),
        asset_code,
        amount_in,
        amount_out: Some(amount_out),
        fee: Some(fee),
        sender_id: tx.sender_id.clone(),
        receiver_id: tx.receiver_id.clone(),
        stellar_memo: memo,
    };
    Ok(Sep31CreatedPlan { record, destination })
}

/// Plans a created SEP-31 transaction, drawing its memo at random.
pub fn plan_sep31_created(tx: &EventTransaction, default_asset_code: &str, distribution_account: &str) -> (r: Result<Sep31CreatedPlan, AppError>)
    ensures
        exists|random: u32| sep31_created_post(*tx, default_asset_code@, distribution_account@, random, r),
{
    let random = random_u32();
    plan_sep31_created_with(tx, default_asset_code, distribution_account, random)
}

/// Law: a created SEP-24 transaction is recorded for the wallet account of
/// the event, whatever its kind, under the platform's transaction id and
/// with the event's asset (the configured one when absent) and amount in; a
/// withdrawal is told to pay the distribution account with the memo it
/// records, a deposit is not and keeps the wallet's own memo.
pub proof fn lemma_sep24_record_is_the_wallets(
    tx: EventTransaction,
    default_asset_code: Seq<char>,
    distribution_account: Seq<char>,
    random: u32,
    r: Result<Sep24CreatedPlan, AppError>,
)
    requires
        sep24_created_post(tx, default_asset_code, distribution_account, random, r),
    ensures
        r is Ok <==> tx.account is Some,
        r matches Ok(p) ==> {
            &&& tx.account matches Some(a) && p.record.account@ == a@
            &&& p.record.platform_transaction_id@ == tx.platform_transaction_id@
            &&& opt_model(p.record.amount_in) == match tx.amount_in { Some(x) => Some(x.amount@), None => None::<AmountModel> }
            &&& p.record.asset_code@ == match tx.asset_code { Some(c) => c@, None => default_asset_code }
            &&& (tx.kind@ == "withdrawal"@) == (p.destination is Some)
            &&& tx.kind@ != "withdrawal"@ ==> {
                &&& p.record.kind@ == "deposit"@
                &&& p.record.memo == tx.memo
                &&& p.record.memo_type == tx.memo_type
            }
            &&& p.destination matches Some(d) ==> {
                &&& d.destination_account@ == distribution_account
                &&& p.record.withdraw_memo matches Some(m) && m@ == d.memo@
                &&& d.transaction_id@ == tx.platform_transaction_id@
            }
        },
{
}

/// Law: a created SEP-31 receive records the event's amount in as it came,
/// the fee (zero when absent), and as amount out the event's one or else
/// what is left of the amount in after the fee, so that amount out and fee
/// add up to the amount in; the sending anchor is told the amount in, and
/// to pay the distribution account with the memo the receive records.
pub proof fn lemma_sep31_record_keeps_amount_in(
    tx: EventTransaction,
    default_asset_code: Seq<char>,
    distribution_account: Seq<char>,
    random: u32,
    r: Result<Sep31CreatedPlan, AppError>,
)
    requires
        sep31_created_post(tx, default_asset_code, distribution_account, random, r),
    ensures
        r matches Ok(p) ==> {
            &&& tx.amount_in matches Some(a) && p.record.amount_in@ == a.amount@
                && p.destination.amount_in@ == decimal_display(a.amount@)
            &&& tx.account matches Some(acc) && p.record.creator_account@ == acc@
            &&& p.destination.destination_account@ == distribution_account
            &&& p.destination.memo@ == p.record.stellar_memo@
            &&& p.destination.transaction_id@ == tx.platform_transaction_id@
            &&& p.record.platform_transaction_id@ == tx.platform_transaction_id@
            &&& p.record.fee matches Some(f) && f@ == match tx.fee_total { Some(x) => x@, None => model(0, 0) }
            &&& tx.amount_out matches Some(o) ==> (p.record.amount_out matches Some(out) && out@ == o.amount@)
            &&& (tx.amount_out is None && exact_sub_fits(p.record.amount_in@, p.record.fee.unwrap()@))
                ==> (p.record.amount_out matches Some(out) && sum_is(out@, p.record.fee.unwrap()@, p.record.amount_in@))
        },
{
}

/// The asset identifier of the anchor's asset: `stellar:{code}:{issuer}`.
pub open spec fn stellar_asset_model(asset_code: Seq<char>, issuer: Seq<char>) -> Seq<char> {
    "stellar:"@ + asset_code + ":"@ + issuer
}

/// An amount of the anchor's own asset, issued by the distribution
/// account, as the Platform API takes it.
pub fn amount_in_stellar(asset_code: &str, distribution_account: &str, amount: Amount) -> (r: RpcAmount)
    ensures
        r.amount@ == decimal_display(amount@),
        r.asset matches Some(a) && a@ == stellar_asset_model(asset_code@, distribution_account@),
{
    let mut asset = String::from_str("stellar:");
    asset.append(asset_code);
    asset.append(":");
    asset.append(distribution_account);
    RpcAmount { amount: Amount::decimal_display_call(&amount), asset: Some(asset) }
}

} // verus!
