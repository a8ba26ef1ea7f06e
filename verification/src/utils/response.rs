use vstd::prelude::*;
use crate::types::err::AppError;

verus! {

/// The word that an error's answer carries under `type`.
pub open spec fn error_kind(e: AppError) -> &'static str {
    match e {
        AppError::User(_, _) => "user",
        AppError::Internal(_, _) => "internal",
    }
}

/// What the answer to a failed request is made of: its status code, the
/// message, and the kind of the error.
pub fn error_response(e: &AppError) -> (parts: (u16, &'static str, &'static str))
    ensures
        parts.0 == e.status_code().value(),
        parts.1 == e.message(),
        parts.2 == error_kind(*e),
{
    let kind: &'static str = match e {
        AppError::User(_, _) => "user",
        AppError::Internal(_, _) => "internal",
    };
    (e.status_code().as_u16(), e.message(), kind)
}

} // verus!
