//! What this anchor reports to the platform's Platform API: amounts, the
//! transaction URL a destination is assigned at, and the first error of a
//! JSON-RPC batch answer.

use vstd::prelude::*;
use crate::text::{trim_end_matches, trim_end_char};

verus! {

/// An amount as the Platform API takes it, with its asset when known.
#[derive(Clone, Debug)]
pub struct RpcAmount {
    pub amount: String,
    pub asset: Option<String>,
}

/// An error object in a JSON-RPC answer.
pub struct RpcError {
    pub code: i64,
    pub message: String,
}

/// One answer of a JSON-RPC batch.
pub struct RpcResponse {
    pub id: Option<String>,
    pub error: Option<RpcError>,
}

/// The on-chain destination assigned to a pending withdrawal or receive:
/// where the wallet sends the funds, with which memo, and the amount.
pub struct WithdrawalDestination {
    pub transaction_id: String,
    pub destination_account: String,
    pub memo: String,
    pub memo_type: String,
    pub amount_in: String,
}

/// The URL of a transaction under the Platform API base URL, whatever
/// trailing slashes the base carries.
pub open spec fn transactions_url_model(base_url: Seq<char>, transaction_id: Seq<char>) -> Seq<char> {
    trim_end_char(base_url, '/') + "/transactions/"@ + transaction_id
}

/// The answer's error is present with this code and message.
pub open spec fn error_is(e: Option<RpcError>, code: i64, message: Seq<char>) -> bool {
    e matches Some(x) && x.code == code && x.message@ == message
}

/// `{base_url without trailing '/'}/transactions/{transaction_id}`.
pub fn transactions_url(base_url: &str, transaction_id: &str) -> (r: String)
    ensures
        r@ == transactions_url_model(base_url@, transaction_id@),
{
    let mut url = trim_end_matches(base_url, '/');
    url.append("/transactions/");
    url.append(transaction_id);
    url
}

/// The first error of a JSON-RPC batch answer: its code and message, or
/// `None` when no answer carries one.
pub fn first_rpc_error(responses: &Vec<RpcResponse>) -> (r: Option<(i64, String)>)
    ensures
        r is None <==> forall|i: int| 0 <= i < responses@.len() ==> (#[trigger] responses@[i]).error is None,
        r matches Some(err) ==> exists|i: int| 0 <= i < responses@.len()
            && (forall|j: int| 0 <= j < i ==> (#[trigger] responses@[j]).error is None)
            && error_is((#[trigger] responses@[i]).error, err.0, err.1@),
{
    let mut i: usize = 0;
    while i < responses.len()
        invariant
            i <= responses@.len(),
            forall|j: int| 0 <= j < i ==> (#[trigger] responses@[j]).error is None,
        decreases responses@.len() - i,
    {
        match &responses[i].error {
            Some(e) => {
                let out = (e.code, e.message.clone());
                assert(error_is(responses@[i as int].error, out.0, out.1@));
                return Some(out);
            },
            None => {},
        }
        i = i + 1;
    }
    None
}

} // verus!
