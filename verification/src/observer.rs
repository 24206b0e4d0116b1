//! Matching incoming payments to the distribution account against the
//! SEP-24 withdrawals and SEP-31 receives waiting for them.

use vstd::prelude::*;
use crate::db::sep24_transactions::Sep24Transaction;
use crate::db::sep31_transactions::Sep31Transaction;
use crate::text::str_eq;
use crate::error::AppError;
use crate::event::{EventTransaction, Sep24CreatedPlan, Sep31CreatedPlan, sep24_created_post, sep31_created_post};

verus! {

/// A payment operation seen on the distribution account: its recipient,
/// asset, the memo of its transaction, and that transaction's hash.
pub struct IncomingPayment {
    pub to: String,
    pub asset_code: Option<String>,
    pub asset_issuer: Option<String>,
    pub memo: Option<String>,
    pub transaction_hash: String,
}

/// An optional string holds exactly `text`.
pub open spec fn is_text(o: Option<String>, text: Seq<char>) -> bool {
    o matches Some(s) && s@ == text
}

/// The memo of a payment that pays the anchor's own asset (issued by the
/// distribution account) to the distribution account; `None` for any
/// other payment, or one without a memo.
pub open spec fn incoming_memo_spec(p: IncomingPayment, distribution_account: Seq<char>, asset_code: Seq<char>) -> Option<String> {
    if p.to@ == distribution_account && is_text(p.asset_code, asset_code) && is_text(p.asset_issuer, distribution_account) {
        p.memo
    } else {
        None
    }
}

fn opt_is(o: &Option<String>, text: &str) -> (r: bool)
    ensures
        r == is_text(*o, text@),
{
    match o {
        Some(s) => str_eq(s.as_str(), text),
        None => false,
    }
}

/// The memo by which a payment is matched, when it is one the anchor acts on.
pub fn incoming_memo(p: &IncomingPayment, distribution_account: &str, asset_code: &str) -> (r: Option<String>)
    ensures
        r == incoming_memo_spec(*p, distribution_account@, asset_code@),
{
    if str_eq(p.to.as_str(), distribution_account) && opt_is(&p.asset_code, asset_code)
        && opt_is(&p.asset_issuer, distribution_account) {
        p.memo.clone()
    } else {
        None
    }
}

/// A SEP-24 withdrawal waits for the payment with this memo and asset.
pub open spec fn withdrawal_waits_for(tx: Sep24Transaction, memo: Seq<char>, asset_code: Seq<char>) -> bool {
    is_text(tx.withdraw_memo, memo) && tx.asset_code@ == asset_code && tx.status@ == "awaiting_stellar_payment"@
}

/// A SEP-31 receive waits for the payment with this memo and asset.
pub open spec fn receive_waits_for(tx: Sep31Transaction, memo: Seq<char>, asset_code: Seq<char>) -> bool {
    tx.stellar_memo@ == memo && tx.asset_code@ == asset_code && tx.status@ == "pending_receiver"@
}

/// The first withdrawal among `candidates` waiting for the payment with
/// `memo` in `asset_code`.
pub fn find_waiting_withdrawal(candidates: &Vec<Sep24Transaction>, memo: &str, asset_code: &str) -> (r: Option<usize>)
    ensures
        match r {
            Some(i) => i < candidates@.len() && withdrawal_waits_for(candidates@[i as int], memo@, asset_code@)
                && forall|j: int| 0 <= j < i ==> !withdrawal_waits_for(#[trigger] candidates@[j], memo@, asset_code@),
            None => forall|j: int| 0 <= j < candidates@.len() ==> !withdrawal_waits_for(#[trigger] candidates@[j], memo@, asset_code@),
        },
{
    let mut i: usize = 0;
    while i < candidates.len()
        invariant
            i <= candidates@.len(),
            forall|j: int| 0 <= j < i ==> !withdrawal_waits_for(#[trigger] candidates@[j], memo@, asset_code@),
        decreases candidates@.len() - i,
    {
        let tx = &candidates[i];
        if opt_is(&tx.withdraw_memo, memo) && str_eq(tx.asset_code.as_str(), asset_code)
            && str_eq(tx.status.as_str(), "awaiting_stellar_payment") {
            return Some(i);
        }
        i = i + 1;
    }
    None
}

/// The first receive among `candidates` waiting for the payment with
/// `memo` in `asset_code`.
pub fn find_waiting_receive(candidates: &Vec<Sep31Transaction>, memo: &str, asset_code: &str) -> (r: Option<usize>)
    ensures
        match r {
            Some(i) => i < candidates@.len() && receive_waits_for(candidates@[i as int], memo@, asset_code@)
                && forall|j: int| 0 <= j < i ==> !receive_waits_for(#[trigger] candidates@[j], memo@, asset_code@),
            None => forall|j: int| 0 <= j < candidates@.len() ==> !receive_waits_for(#[trigger] candidates@[j], memo@, asset_code@),
        },
{
    let mut i: usize = 0;
    while i < candidates.len()
        invariant
            i <= candidates@.len(),
            forall|j: int| 0 <= j < i ==> !receive_waits_for(#[trigger] candidates@[j], memo@, asset_code@),
        decreases candidates@.len() - i,
    {
        let tx = &candidates[i];
        if str_eq(tx.stellar_memo.as_str(), memo) && str_eq(tx.asset_code.as_str(), asset_code)
            && str_eq(tx.status.as_str(), "pending_receiver") {
            return Some(i);
        }
        i = i + 1;
    }
    None
}

/// What an incoming payment is for.
pub enum PaymentMatch {
    /// The withdrawal at this index of the SEP-24 candidates.
    Withdrawal(usize),
    /// The receive at this index of the SEP-31 candidates.
    Receive(usize),
    /// Nothing waits for it.
    Unmatched,
}

/// The transaction a payment with `memo` in `asset_code` is for: a waiting
/// SEP-24 withdrawal comes first; a SEP-31 receive only when no withdrawal
/// waits; each the first one waiting among the candidates.
pub fn match_payment(
    withdrawals: &Vec<Sep24Transaction>,
    receives: &Vec<Sep31Transaction>,
    memo: &str,
    asset_code: &str,
) -> (r: PaymentMatch)
    ensures
        match r {
            PaymentMatch::Withdrawal(i) => i < withdrawals@.len()
                && withdrawal_waits_for(withdrawals@[i as int], memo@, asset_code@)
                && forall|j: int| 0 <= j < i ==> !withdrawal_waits_for(#[trigger] withdrawals@[j], memo@, asset_code@),
            PaymentMatch::Receive(i) => i < receives@.len()
                && (forall|j: int| 0 <= j < withdrawals@.len() ==> !withdrawal_waits_for(#[trigger] withdrawals@[j], memo@, asset_code@))
                && receive_waits_for(receives@[i as int], memo@, asset_code@)
                && forall|j: int| 0 <= j < i ==> !receive_waits_for(#[trigger] receives@[j], memo@, asset_code@),
            PaymentMatch::Unmatched =>
                (forall|j: int| 0 <= j < withdrawals@.len() ==> !withdrawal_waits_for(#[trigger] withdrawals@[j], memo@, asset_code@))
                && forall|j: int| 0 <= j < receives@.len() ==> !receive_waits_for(#[trigger] receives@[j], memo@, asset_code@),
        },
{
    match find_waiting_withdrawal(withdrawals, memo, asset_code) {
        Some(i) => PaymentMatch::Withdrawal(i),
        None => match find_waiting_receive(receives, memo, asset_code) {
            Some(i) => PaymentMatch::Receive(i),
            None => PaymentMatch::Unmatched,
        },
    }
}

/// Law: the payment a wallet makes for a created SEP-24 withdrawal (the
/// anchor's asset, to the distribution account, with the memo assigned at
/// creation) is matched to that withdrawal once it awaits the payment.
pub proof fn lemma_withdrawal_payment_is_matched(
    tx: EventTransaction,
    default_asset_code: Seq<char>,
    distribution_account: Seq<char>,
    random: u32,
    plan: Result<Sep24CreatedPlan, AppError>,
    stored: Sep24Transaction,
    payment: IncomingPayment,
)
    requires
        sep24_created_post(tx, default_asset_code, distribution_account, random, plan),
        tx.kind@ == "withdrawal"@,
        plan matches Ok(p) && {
            &&& stored.withdraw_memo == p.record.withdraw_memo
            &&& stored.asset_code@ == p.record.asset_code@
            &&& stored.status@ == "awaiting_stellar_payment"@
            &&& payment.to@ == distribution_account
            &&& is_text(payment.asset_code, p.record.asset_code@)
            &&& is_text(payment.asset_issuer, distribution_account)
            &&& p.destination matches Some(d) && is_text(payment.memo, d.memo@)
        },
    ensures
        plan matches Ok(p) && incoming_memo_spec(payment, distribution_account, p.record.asset_code@) matches Some(m)
            && withdrawal_waits_for(stored, m@, p.record.asset_code@),
{
}

/// Law: the payment a sending anchor makes for a created SEP-31 receive
/// (the anchor's asset, to the distribution account, with the memo
/// assigned at creation) is matched to that receive while it is pending.
pub proof fn lemma_receive_payment_is_matched(
    tx: EventTransaction,
    default_asset_code: Seq<char>,
    distribution_account: Seq<char>,
    random: u32,
    plan: Result<Sep31CreatedPlan, AppError>,
    stored: Sep31Transaction,
    payment: IncomingPayment,
)
    requires
        sep31_created_post(tx, default_asset_code, distribution_account, random, plan),
        plan matches Ok(p) && {
            &&& stored.stellar_memo@ == p.record.stellar_memo@
            &&& stored.asset_code@ == p.record.asset_code@
            &&& stored.status@ == "pending_receiver"@
            &&& payment.to@ == distribution_account
            &&& is_text(payment.asset_code, p.record.asset_code@)
            &&& is_text(payment.asset_issuer, distribution_account)
            &&& is_text(payment.memo, p.destination.memo@)
        },
    ensures
        plan matches Ok(p) && incoming_memo_spec(payment, distribution_account, p.record.asset_code@) matches Some(m)
            && receive_waits_for(stored, m@, p.record.asset_code@),
{
}

} // verus!
