//! The anchor's mirror of a SEP-24 transaction.

use vstd::prelude::*;
use crate::amount::Amount;
use crate::clock::Timestamp;

verus! {

/// Our own mirror of a SEP-24 transaction the platform told us about; it
/// carries only what the custody workers and the interactive form need.
pub struct Sep24Transaction {
    pub id: u128,
    pub platform_transaction_id: String,
    pub kind: String,
    pub status: String,
    pub account: String,
    pub memo: Option<String>,
    pub memo_type: Option<String>,
    pub asset_code: String,
    pub amount_in: Option<Amount>,
    pub amount_out: Option<Amount>,
    pub amount_fee: Option<Amount>,
    pub stellar_transaction_id: Option<String>,
    pub message: Option<String>,
    pub withdraw_memo: Option<String>,
    pub started_at: Timestamp,
    pub completed_at: Option<Timestamp>,
}

/// A SEP-24 transaction to record, in status `received`.
pub struct NewTransaction {
    pub platform_transaction_id: String,
    pub kind: String,
    pub account: String,
    pub memo: Option<String>,
    pub memo_type: Option<String>,
    pub asset_code: String,
    pub amount_in: Option<Amount>,
    pub withdraw_memo: Option<String>,
}

} // verus!
