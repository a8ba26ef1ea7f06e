use vstd::prelude::*;
use crate::utils::decimal::{nat_text, push_nat_text};

verus! {

/// An HTTP status code: a number from 100 to 999.
#[derive(Debug, Clone, Copy, PartialEq, Eq)]
pub struct StatusCode {
    code: u16,
}

impl StatusCode {
    #[verifier::type_invariant]
    spec fn in_range(self) -> bool {
        100 <= self.code <= 999
    }

    /// The number of this status code.
    pub closed spec fn value(self) -> u16 {
        self.code
    }

    /// The status code with the number `code`; meant for `100 <= code <= 999`.
    pub closed spec fn of(code: u16) -> StatusCode {
        StatusCode { code }
    }

    /// The status code with the number `code`, if there is one.
    pub fn from_u16(code: u16) -> (r: Option<StatusCode>)
        ensures
            r == if 100 <= code <= 999 { Some(StatusCode::of(code)) } else { None },
    {
        if 100 <= code && code <= 999 {
            Some(StatusCode { code })
        } else {
            None
        }
    }

    /// The number of this status code.
    pub fn as_u16(&self) -> (code: u16)
        ensures
            code == self.value(),
            100 <= code <= 999,
    {
        proof {
            use_type_invariant(self);
        }
        self.code
    }
}

/// What a request handler answers when it cannot do what was asked: a status
/// code and a message key. `User` errors are the caller's doing, `Internal`
/// ones the server's.
#[derive(Debug, Clone, Copy, PartialEq, Eq)]
pub enum AppError {
    User(StatusCode, &'static str),
    Internal(StatusCode, &'static str),
}

pub type AppResult<T> = Result<T, AppError>;

pub type EmptyErrResult<T> = Result<T, ()>;

impl AppError {
    pub fn new_user(status: StatusCode, message: &'static str) -> (e: AppError)
        ensures
            e == AppError::User(status, message),
    {
        AppError::User(status, message)
    }

    pub fn new_internal(status: StatusCode, message: &'static str) -> (e: AppError)
        ensures
            e == AppError::Internal(status, message),
    {
        AppError::Internal(status, message)
    }

    pub open spec fn spec_status_code(&self) -> StatusCode {
        match self {
            AppError::User(status, _) => *status,
            AppError::Internal(status, _) => *status,
        }
    }

    pub open spec fn spec_message(&self) -> &'static str {
        match self {
            AppError::User(_, message) => *message,
            AppError::Internal(_, message) => *message,
        }
    }

    #[verifier::when_used_as_spec(spec_status_code)]
    pub fn status_code(&self) -> (status: StatusCode)
        ensures
            status == self.spec_status_code(),
    {
        match self {
            AppError::User(status, _) => *status,
            AppError::Internal(status, _) => *status,
        }
    }

    #[verifier::when_used_as_spec(spec_message)]
    pub fn message(&self) -> (message: &'static str)
        ensures
            message == self.spec_message(),
    {
        match self {
            AppError::User(_, message) => *message,
            AppError::Internal(_, message) => *message,
        }
    }

    /// The error in one line: the number of the status code, a colon and
    /// the message.
    pub fn to_string(&self) -> (line: String)
        ensures
            line@ == nat_text(self.spec_status_code().value() as nat) + ": "@ + self.spec_message()@,
    {
        let mut line = String::new();
        push_nat_text(&mut line, self.status_code().as_u16() as u32);
        assert(line@ =~= nat_text(self.spec_status_code().value() as nat));
        line.append(": ");
        line.append(self.message());
        line
    }
}

/// Errors of the caller's making that any handler may answer with.
#[derive(Debug, Clone, Copy, PartialEq, Eq)]
pub enum GlobalUserError {
    NotFound,
    CredentialUnauthorized,
    StatusUnauthorized,
    PermissionDenied,
    TooMaxParameter,
    InvalidParameter,
    InvalidPayload,
    InvalidMime,
    UnknownLang,
    FeatureNotEnabled,
    PayloadTooLarge,
    PayloadLengthRequired,
    SystemReserved,
}

impl GlobalUserError {
    /// The status code that the error is answered with.
    pub open spec fn code(self) -> u16 {
        match self {
            GlobalUserError::InvalidParameter => 412,
            GlobalUserError::InvalidPayload => 400,
            GlobalUserError::InvalidMime => 400,
            GlobalUserError::FeatureNotEnabled => 501,
            GlobalUserError::PayloadTooLarge => 413,
            GlobalUserError::PayloadLengthRequired => 411,
            _ => 200,
        }
    }

    /// The message of the error: the variant's name in lower-case words.
    pub open spec fn msg(self) -> &'static str {
        match self {
            GlobalUserError::NotFound => "not found",
            GlobalUserError::CredentialUnauthorized => "credential unauthorized",
            GlobalUserError::StatusUnauthorized => "status unauthorized",
            GlobalUserError::PermissionDenied => "permission denied",
            GlobalUserError::TooMaxParameter => "too max parameter",
            GlobalUserError::InvalidParameter => "invalid parameter",
            GlobalUserError::InvalidPayload => "invalid payload",
            GlobalUserError::InvalidMime => "invalid mime",
            GlobalUserError::UnknownLang => "unknown lang",
            GlobalUserError::FeatureNotEnabled => "feature not enabled",
            GlobalUserError::PayloadTooLarge => "payload too large",
            GlobalUserError::PayloadLengthRequired => "payload length required",
            GlobalUserError::SystemReserved => "system reserved",
        }
    }

    /// The error as a handler answers it.
    pub open spec fn error(self) -> AppError {
        AppError::User(StatusCode::of(self.code()), self.msg())
    }

    pub fn to_error(self) -> (e: AppError)
        ensures
            e == self.error(),
    {
        let (msg, code): (&'static str, u16) = match self {
            GlobalUserError::NotFound => ("not found", 200),
            GlobalUserError::CredentialUnauthorized => ("credential unauthorized", 200),
            GlobalUserError::StatusUnauthorized => ("status unauthorized", 200),
            GlobalUserError::PermissionDenied => ("permission denied", 200),
            GlobalUserError::TooMaxParameter => ("too max parameter", 200),
            GlobalUserError::InvalidParameter => ("invalid parameter", 412),
            GlobalUserError::InvalidPayload => ("invalid payload", 400),
            GlobalUserError::InvalidMime => ("invalid mime", 400),
            GlobalUserError::UnknownLang => ("unknown lang", 200),
            GlobalUserError::FeatureNotEnabled => ("feature not enabled", 501),
            GlobalUserError::PayloadTooLarge => ("payload too large", 413),
            GlobalUserError::PayloadLengthRequired => ("payload length required", 411),
            GlobalUserError::SystemReserved => ("system reserved", 200),
        };
        AppError::new_user(StatusCode::from_u16(code).unwrap(), msg)
    }
}

impl From<GlobalUserError> for AppError {
    fn from(value: GlobalUserError) -> (e: AppError) {
        value.to_error()
    }
}

impl vstd::std_specs::convert::FromSpecImpl<GlobalUserError> for AppError {
    open spec fn obeys_from_spec() -> bool {
        true
    }

    open spec fn from_spec(value: GlobalUserError) -> AppError {
        value.error()
    }
}

/// Errors of the server's making that any handler may answer with.
#[derive(Debug, Clone, Copy, PartialEq, Eq)]
pub enum GlobalInternalError {
    IO,
}

impl GlobalInternalError {
    pub open spec fn code(self) -> u16 {
        500
    }

    pub open spec fn msg(self) -> &'static str {
        "error.io"
    }

    /// The error as a handler answers it.
    pub open spec fn error(self) -> AppError {
        AppError::Internal(StatusCode::of(self.code()), self.msg())
    }

    pub fn to_error(self) -> (e: AppError)
        ensures
            e == self.error(),
    {
        AppError::new_internal(StatusCode::from_u16(500).unwrap(), "error.io")
    }
}

impl From<GlobalInternalError> for AppError {
    fn from(value: GlobalInternalError) -> (e: AppError) {
        value.to_error()
    }
}

impl vstd::std_specs::convert::FromSpecImpl<GlobalInternalError> for AppError {
    open spec fn obeys_from_spec() -> bool {
        true
    }

    open spec fn from_spec(value: GlobalInternalError) -> AppError {
        value.error()
    }
}

} // verus!
