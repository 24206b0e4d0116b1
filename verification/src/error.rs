//! Errors the callback handlers answer with.

use vstd::prelude::*;

verus! {

/// An error answered to a caller: the variant chooses the HTTP status
/// (400, 401, 404, 500) and the text is the message.
#[derive(Debug, Clone)]
pub enum AppError {
    BadRequest(String),
    NotAuthorized(String),
    NotFound(String),
    Internal(String),
}

/// The kind of an error with its message text.
pub open spec fn bad_request(e: AppError, msg: Seq<char>) -> bool {
    e matches AppError::BadRequest(m) && m@ == msg
}

pub open spec fn not_authorized(e: AppError, msg: Seq<char>) -> bool {
    e matches AppError::NotAuthorized(m) && m@ == msg
}

pub open spec fn not_found(e: AppError, msg: Seq<char>) -> bool {
    e matches AppError::NotFound(m) && m@ == msg
}

pub open spec fn internal(e: AppError, msg: Seq<char>) -> bool {
    e matches AppError::Internal(m) && m@ == msg
}

} // verus!
