use vstd::prelude::*;

verus! {

/// The ways a request can be refused, each with the message shown to the client.
#[derive(Debug, Clone, PartialEq, Eq)]
pub enum AppError {
    Validation(String),
    Unauthorized(String),
    Forbidden(String),
    NotFound(String),
    Conflict(String),
    Internal(String),
}

/// `e` is an `Unauthorized` refusal with message `msg`.
pub open spec fn is_unauthorized(e: AppError, msg: Seq<char>) -> bool {
    e matches AppError::Unauthorized(m) && m@ == msg
}

/// `e` is a `Forbidden` refusal with message `msg`.
pub open spec fn is_forbidden(e: AppError, msg: Seq<char>) -> bool {
    e matches AppError::Forbidden(m) && m@ == msg
}

/// `e` is a `NotFound` refusal with message `msg`.
pub open spec fn is_not_found(e: AppError, msg: Seq<char>) -> bool {
    e matches AppError::NotFound(m) && m@ == msg
}

/// `e` is a `Conflict` refusal with message `msg`.
pub open spec fn is_conflict(e: AppError, msg: Seq<char>) -> bool {
    e matches AppError::Conflict(m) && m@ == msg
}

/// `e` is a `Validation` refusal with message `msg`.
pub open spec fn is_validation(e: AppError, msg: Seq<char>) -> bool {
    e matches AppError::Validation(m) && m@ == msg
}

/// `e` is an `Internal` failure with message `msg`.
pub open spec fn is_internal(e: AppError, msg: Seq<char>) -> bool {
    e matches AppError::Internal(m) && m@ == msg
}

} // verus!
