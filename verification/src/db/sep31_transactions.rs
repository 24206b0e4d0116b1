//! The anchor's mirror of a SEP-31 transaction.

use vstd::prelude::*;
use crate::amount::Amount;
use crate::clock::Timestamp;

verus! {

/// Our own mirror of a SEP-31 transaction the platform told us about.
pub struct Sep31Transaction {
    pub id: u128,
    pub platform_transaction_id: String,
    pub status: String,
    pub creator_account: String,
    pub creator_memo: Option<String>,
    pub asset_code: String,
    pub amount_in: Amount,
    pub amount_out: Option<Amount>,
    pub fee: Option<Amount>,
    pub sender_id: Option<String>,
    pub receiver_id: Option<String>,
    pub stellar_memo: String,
    pub stellar_memo_type: String,
    pub required_info_message: Option<String>,
    pub stellar_transaction_id: Option<String>,
    pub started_at: Timestamp,
    pub completed_at: Option<Timestamp>,
}

/// A SEP-31 transaction to record, in status `pending_receiver`, with a
/// memo of type `id`.
pub struct NewTransaction {
    pub platform_transaction_id: String,
    pub creator_account: String,
    pub creator_memo: Option<String>,
    pub asset_code: String,
    pub amount_in: Amount,
    pub amount_out: Option<Amount>,
    pub fee: Option<Amount>,
    pub sender_id: Option<String>,
    pub receiver_id: Option<String>,
    pub stellar_memo: String,
}

} // verus!
