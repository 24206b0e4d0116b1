//! SEP-24 custody steps: the on-chain payout of a deposit, and the
//! completion of a withdrawal whose payment arrived.

use vstd::prelude::*;
use crate::amount::{Amount, AmountModel, model, opt_model, decimal_display};
use crate::db::sep24_transactions::Sep24Transaction;
use crate::event::{amount_in_stellar, stellar_asset_model};
use crate::ledger::{LedgerError, MuxedAccount, parse_account, deposit_memo_id, deposit_memo_model,
    account_matches, account_decodes, invalid_account_message};
use crate::platform_api::RpcAmount;

verus! {

impl LedgerError {
    /// The text of the error, as the ledger client reports it.
    pub open spec fn message_model(self) -> Seq<char> {
        match self {
            LedgerError::Base(s) => "stellar-base error: "@ + s@,
            LedgerError::Horizon(s) => "horizon error: "@ + s@,
            LedgerError::InvalidAmount(s) => "invalid amount: "@ + s@,
        }
    }

    /// The text of the error.
    pub fn message(&self) -> (r: String)
        ensures
            r@ == self.message_model(),
    {
        let (mut out, detail) = match self {
            LedgerError::Base(s) => (String::from_str("stellar-base error: "), s),
            LedgerError::Horizon(s) => (String::from_str("horizon error: "), s),
            LedgerError::InvalidAmount(s) => (String::from_str("invalid amount: "), s),
        };
        out.append(detail.as_str());
        out
    }
}

/// The on-chain payout of a deposit: destination, amount and id memo.
pub struct DepositPayout {
    pub destination: MuxedAccount,
    pub amount: Amount,
    pub memo_id: Option<u64>,
}

pub open spec fn disappeared_message() -> Seq<char> {
    "transaction disappeared"@
}

pub open spec fn missing_amount_out_message() -> Seq<char> {
    "missing amount_out"@
}

/// The payout of a deposit record: the record must still exist and carry
/// the amount out; the destination is the wallet account, parsed; the memo
/// is the wallet's id memo, if it gave one. It succeeds exactly when the
/// account decodes; failures come as their text.
pub fn plan_deposit_payout(tx: &Option<Sep24Transaction>) -> (r: Result<DepositPayout, String>)
    ensures
        match tx {
            None => r matches Err(e) && e@ == disappeared_message(),
            Some(t) => match t.amount_out {
                None => r matches Err(e) && e@ == missing_amount_out_message(),
                Some(out) => match r {
                    Ok(p) => account_decodes(t.account@) && p.amount@ == out@
                        && account_matches(p.destination, t.account@)
                        && p.memo_id == deposit_memo_model(t.memo_type, t.memo),
                    Err(e) => !account_decodes(t.account@)
                        && exists|detail: Seq<char>| e@ == "stellar-base error: "@
                            + invalid_account_message("M"@.is_prefix_of(t.account@), detail),
                },
            },
        },
{
    let t = match tx {
        Some(t) => t,
        None => return Err(String::from_str("transaction disappeared")),
    };
    let amount = match t.amount_out {
        Some(a) => a,
        None => return Err(String::from_str("missing amount_out")),
    };
    let destination = match parse_account(t.account.as_str()) {
        Ok(d) => d,
        Err(e) => {
            let text = e.message();
            proof {
                if let LedgerError::Base(m) = e {
                    let d = choose|d: Seq<char>| m@ == invalid_account_message("M"@.is_prefix_of(t.account@), d);
                    assert(text@ == "stellar-base error: "@ + invalid_account_message("M"@.is_prefix_of(t.account@), d));
                }
            }
            return Err(text);
        },
    };
    let memo_id = deposit_memo_id(&t.memo_type, &t.memo);
    Ok(DepositPayout { destination, amount, memo_id })
}

/// What the completion of a withdrawal reports and records: the platform
/// transaction, the incoming payment hash and amount received, the status
/// while the fiat payout is pending, and the status once done.
pub struct WithdrawalCompletion {
    pub platform_transaction_id: String,
    pub incoming_hash: String,
    pub amount_in: RpcAmount,
    pub payout_status: String,
}

/// The amount in of a withdrawal record, zero when absent.
pub open spec fn amount_in_or_zero(a: Option<Amount>) -> AmountModel {
    match a {
        Some(x) => x@,
        None => model(0, 0),
    }
}

/// Completes a withdrawal whose payment `incoming_hash` arrived: reports
/// the amount in (zero when not recorded) in the anchor's asset, and moves
/// it to `awaiting_offchain_payout` before the simulated fiat payout.
pub fn plan_withdrawal_completion(tx: &Sep24Transaction, incoming_hash: &str, asset_code: &str, distribution_account: &str) -> (r: WithdrawalCompletion)
    ensures
        r.platform_transaction_id@ == tx.platform_transaction_id@,
        r.incoming_hash@ == incoming_hash@,
        r.amount_in.amount@ == decimal_display(amount_in_or_zero(tx.amount_in)),
        r.amount_in.asset matches Some(a) && a@ == stellar_asset_model(asset_code@, distribution_account@),
        r.payout_status@ == "awaiting_offchain_payout"@,
{
    let amount = match tx.amount_in {
        Some(a) => a,
        None => Amount::zero(),
    };
    WithdrawalCompletion {
        platform_transaction_id: tx.platform_transaction_id.clone(),
        incoming_hash: String::from_str(incoming_hash),
        amount_in: amount_in_stellar(asset_code, distribution_account, amount),
        payout_status: String::from_str("awaiting_offchain_payout"),
    }
}


/// The steps of completing a withdrawal, in order.
#[derive(Clone, Copy, PartialEq, Eq, Structural, Debug)]
pub enum WithdrawalStep {
    /// Report the on-chain funds received to the platform.
    ReportReceived,
    /// Record the status while the fiat payout is pending.
    MarkAwaitingPayout,
    /// Record the withdrawal completed with the incoming payment's hash.
    MarkCompleted,
    /// Report the (simulated) fiat payout to the platform.
    ReportPayout,
}

/// What a step of completing a withdrawal does.
pub enum WithdrawalAction {
    NotifyFundsReceived { platform_transaction_id: String, incoming_hash: String, amount_in: RpcAmount },
    SetStatus(String),
    SetCompleted(String),
    NotifyFundsSent { platform_transaction_id: String, external_reference: String },
}

/// The first step of completing a withdrawal.
pub fn first_withdrawal_step() -> (r: WithdrawalStep)
    ensures
        r == WithdrawalStep::ReportReceived,
{
    WithdrawalStep::ReportReceived
}

/// The step that follows `step` when it succeeded (`ok`) or failed: the
/// next one in order after a success; none after a failure (the rest is
/// not attempted) or after the last.
pub open spec fn next_step_spec(step: WithdrawalStep, ok: bool) -> Option<WithdrawalStep> {
    if !ok {
        None
    } else {
        match step {
            WithdrawalStep::ReportReceived => Some(WithdrawalStep::MarkAwaitingPayout),
            WithdrawalStep::MarkAwaitingPayout => Some(WithdrawalStep::MarkCompleted),
            WithdrawalStep::MarkCompleted => Some(WithdrawalStep::ReportPayout),
            WithdrawalStep::ReportPayout => None,
        }
    }
}

/// The step after `step`.
pub fn next_withdrawal_step(step: WithdrawalStep, succeeded: bool) -> (r: Option<WithdrawalStep>)
    ensures
        r == next_step_spec(step, succeeded),
{
    if !succeeded {
        return None;
    }
    match step {
        WithdrawalStep::ReportReceived => Some(WithdrawalStep::MarkAwaitingPayout),
        WithdrawalStep::MarkAwaitingPayout => Some(WithdrawalStep::MarkCompleted),
        WithdrawalStep::MarkCompleted => Some(WithdrawalStep::ReportPayout),
        WithdrawalStep::ReportPayout => None,
    }
}

/// What `step` does for the completion `c`, the simulated payout having
/// the reference `external_reference`.
pub fn withdrawal_action(c: &WithdrawalCompletion, step: WithdrawalStep, external_reference: &str) -> (r: WithdrawalAction)
    ensures
        match step {
            WithdrawalStep::ReportReceived => r matches WithdrawalAction::NotifyFundsReceived { platform_transaction_id, incoming_hash, amount_in }
                && platform_transaction_id@ == c.platform_transaction_id@ && incoming_hash@ == c.incoming_hash@
                && amount_in.amount@ == c.amount_in.amount@ && amount_in.asset == c.amount_in.asset,
            WithdrawalStep::MarkAwaitingPayout => r matches WithdrawalAction::SetStatus(s) && s@ == c.payout_status@,
            WithdrawalStep::MarkCompleted => r matches WithdrawalAction::SetCompleted(h) && h@ == c.incoming_hash@,
            WithdrawalStep::ReportPayout => r matches WithdrawalAction::NotifyFundsSent { platform_transaction_id, external_reference: x }
                && platform_transaction_id@ == c.platform_transaction_id@ && x@ == external_reference@,
        },
{
    match step {
        WithdrawalStep::ReportReceived => WithdrawalAction::NotifyFundsReceived {
            platform_transaction_id: c.platform_transaction_id.clone(),
            incoming_hash: c.incoming_hash.clone(),
            amount_in: RpcAmount { amount: c.amount_in.amount.clone(), asset: c.amount_in.asset.clone() },
        },
        WithdrawalStep::MarkAwaitingPayout => WithdrawalAction::SetStatus(c.payout_status.clone()),
        WithdrawalStep::MarkCompleted => WithdrawalAction::SetCompleted(c.incoming_hash.clone()),
        WithdrawalStep::ReportPayout => WithdrawalAction::NotifyFundsSent {
            platform_transaction_id: c.platform_transaction_id.clone(),
            external_reference: String::from_str(external_reference),
        },
    }
}

/// The steps performed from `step` on, the k-th performed one having
/// outcome `outcomes[k]`.
pub open spec fn steps_run(step: Option<WithdrawalStep>, outcomes: Seq<bool>) -> Seq<WithdrawalStep>
    decreases outcomes.len(),
{
    match step {
        None => seq![],
        Some(s) => if outcomes.len() == 0 {
            seq![]
        } else {
            seq![s] + steps_run(next_step_spec(s, outcomes[0]), outcomes.drop_first())
        },
    }
}

/// Law: completing a withdrawal reports the payout only after reporting
/// the funds received, recording the pending status and marking it
/// completed, in that order and each successfully; a failed step ends the
/// run.
pub proof fn lemma_payout_follows_completion(outcomes: Seq<bool>)
    ensures
        steps_run(Some(WithdrawalStep::ReportReceived), outcomes).contains(WithdrawalStep::ReportPayout) ==> {
            &&& outcomes.len() >= 4
            &&& outcomes[0] && outcomes[1] && outcomes[2]
            &&& steps_run(Some(WithdrawalStep::ReportReceived), outcomes) =~= seq![WithdrawalStep::ReportReceived,
                WithdrawalStep::MarkAwaitingPayout, WithdrawalStep::MarkCompleted, WithdrawalStep::ReportPayout]
        },
        steps_run(Some(WithdrawalStep::ReportReceived), outcomes).len() <= 4,
{
    reveal_with_fuel(steps_run, 6);
    let o1 = outcomes.drop_first();
    let o2 = o1.drop_first();
    let o3 = o2.drop_first();
    let o4 = o3.drop_first();
    assert(steps_run(None, o1) =~= Seq::<WithdrawalStep>::empty());
    assert(steps_run(None, o2) =~= Seq::<WithdrawalStep>::empty());
    assert(steps_run(None, o3) =~= Seq::<WithdrawalStep>::empty());
    assert(steps_run(None, o4) =~= Seq::<WithdrawalStep>::empty());
}

} // verus!
