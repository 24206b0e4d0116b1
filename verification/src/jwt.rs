//! The claims of a SEP-24 interactive session token and the check of a
//! decoded one against the transaction it is presented for.

use vstd::prelude::*;
use crate::error::{AppError, not_authorized};
use crate::text::str_eq;

verus! {

/// Claims of the short-lived token embedded in a SEP-24 interactive
/// session URL: the platform's transaction id, issue and expiry times.
#[derive(Debug, Clone)]
pub struct InteractiveClaims {
    pub transaction_id: String,
    pub iat: i64,
    pub exp: i64,
}

pub open spec fn token_mismatch_message() -> Seq<char> {
    "token does not match transaction_id"@
}

/// The verdict on a decoded interactive token presented for
/// `transaction_id`: a token that failed to decode (its error text given)
/// or that was minted for another transaction is refused.
pub fn check_interactive_claims(decoded: &Result<InteractiveClaims, String>, transaction_id: &str) -> (r: Result<(), AppError>)
    ensures
        match decoded {
            Err(msg) => r matches Err(e) && not_authorized(e, "invalid interactive token: "@ + msg@),
            Ok(c) => if c.transaction_id@ == transaction_id@ { r is Ok } else {
                r matches Err(e) && not_authorized(e, token_mismatch_message())
            },
        },
{
    match decoded {
        Err(msg) => {
            let mut text = String::from_str("invalid interactive token: ");
            text.append(msg.as_str());
            Err(AppError::NotAuthorized(text))
        },
        Ok(c) => {
            if str_eq(c.transaction_id.as_str(), transaction_id) {
                Ok(())
            } else {
                Err(AppError::NotAuthorized(String::from_str("token does not match transaction_id")))
            }
        },
    }
}

} // verus!
