//! The error taxonomy shared by every operation of the core.

use vstd::prelude::*;
use crate::outside::{bcrypt_error_text, jwt_error_text};

verus! {

/// What went wrong, independent of the wording shown to the caller.
#[derive(Clone, Copy, Debug, PartialEq, Eq, Structural)]
pub enum ErrorKind {
    /// Unknown nickname or wrong password at login.
    InvalidCredentials,
    /// The nickname is already registered.
    Conflict,
    /// Missing, malformed, forged or expired access or refresh token.
    Unauthorized,
    /// The caller is known but lacks the required role.
    Forbidden,
    /// The requested content does not exist.
    NotFound,
    /// The backing store failed or answered out of turn.
    Storage,
    /// A token could not be signed.
    Signing,
    /// A password could not be hashed or a stored hash is malformed.
    Hashing,
}

impl ErrorKind {
    /// The HTTP-equivalent status of each kind.
    pub open spec fn status(self) -> u16 {
        match self {
            ErrorKind::InvalidCredentials => 401,
            ErrorKind::Conflict => 409,
            ErrorKind::Unauthorized => 401,
            ErrorKind::Forbidden => 403,
            ErrorKind::NotFound => 404,
            ErrorKind::Storage => 500,
            ErrorKind::Signing => 500,
            ErrorKind::Hashing => 500,
        }
    }

    /// Computes [`ErrorKind::status`].
    pub fn status_code(&self) -> (code: u16)
        ensures
            code == self.status(),
    {
        match self {
            ErrorKind::InvalidCredentials => 401,
            ErrorKind::Conflict => 409,
            ErrorKind::Unauthorized => 401,
            ErrorKind::Forbidden => 403,
            ErrorKind::NotFound => 404,
            ErrorKind::Storage => 500,
            ErrorKind::Signing => 500,
            ErrorKind::Hashing => 500,
        }
    }
}

/// An error of the core: a kind and a short message for the caller, and the
/// cause underneath for the log.
#[derive(Debug)]
pub struct AppError {
    pub kind: ErrorKind,
    pub message: String,
    /// What an outside component said when it failed; empty where the core
    /// itself refused. It is meant for the log and never for the caller.
    pub detail: String,
}

/// The mathematical content of an [`AppError`].
pub struct ErrorView {
    pub kind: ErrorKind,
    pub message: Seq<char>,
    pub detail: Seq<char>,
}

impl View for AppError {
    type V = ErrorView;

    open spec fn view(&self) -> ErrorView {
        ErrorView { kind: self.kind, message: self.message@, detail: self.detail@ }
    }
}

/// What a caller is told of a failure: its kind and its message.
pub struct Failure {
    pub kind: ErrorKind,
    pub message: Seq<char>,
}

/// A result as contracts speak of it: the value on success, what the caller
/// is told on failure.
pub open spec fn outcome<T>(result: Result<T, AppError>) -> Result<T, Failure> {
    match result {
        Ok(value) => Ok(value),
        Err(error) => Err(error.told()),
    }
}

/// The result is a failure of which the caller is told exactly this.
pub open spec fn failed<T>(result: Result<T, AppError>, error: Failure) -> bool {
    result matches Err(reported) && reported.told() == error
}

/// No access token was presented.
pub open spec fn token_required() -> Failure {
    Failure { kind: ErrorKind::Unauthorized, message: "authorization token required"@ }
}

/// The access token is malformed, wrongly signed or does not state its claims.
pub open spec fn invalid_token() -> Failure {
    Failure { kind: ErrorKind::Unauthorized, message: "invalid token"@ }
}

/// The access token is past its expiry.
pub open spec fn token_expired() -> Failure {
    Failure { kind: ErrorKind::Unauthorized, message: "token expired"@ }
}

/// The refresh token names no stored session.
pub open spec fn invalid_refresh_token() -> Failure {
    Failure { kind: ErrorKind::Unauthorized, message: "invalid refresh token"@ }
}

/// The refresh session is past its expiry.
pub open spec fn session_expired() -> Failure {
    Failure { kind: ErrorKind::Unauthorized, message: "session expired"@ }
}

/// Unknown nickname or wrong password; the two are not told apart.
pub open spec fn invalid_credentials() -> Failure {
    Failure { kind: ErrorKind::InvalidCredentials, message: "invalid nickname or password"@ }
}

/// The nickname is taken.
pub open spec fn nickname_taken() -> Failure {
    Failure { kind: ErrorKind::Conflict, message: "a user with this nickname already exists"@ }
}

/// The caller's role does not allow the operation.
pub open spec fn access_denied() -> Failure {
    Failure { kind: ErrorKind::Forbidden, message: "access denied"@ }
}

/// The store failed, or answered something that was not asked.
pub open spec fn storage_failure() -> Failure {
    Failure { kind: ErrorKind::Storage, message: "internal server error"@ }
}

/// The access token could not be signed.
pub open spec fn signing_failure() -> Failure {
    Failure { kind: ErrorKind::Signing, message: "token error"@ }
}

/// The password could not be hashed.
pub open spec fn hashing_failure() -> Failure {
    Failure { kind: ErrorKind::Hashing, message: "could not hash password"@ }
}

/// The stored hash could not be checked against a password.
pub open spec fn verification_failure() -> Failure {
    Failure { kind: ErrorKind::Hashing, message: "could not verify password"@ }
}

/// The test does not exist or holds no question.
pub open spec fn test_not_found() -> Failure {
    Failure { kind: ErrorKind::NotFound, message: "test not found or has no questions"@ }
}

impl AppError {
    /// What the caller is told of this error.
    pub open spec fn told(self) -> Failure {
        Failure { kind: self.kind, message: self.message@ }
    }

    /// An error that the core raises on its own account.
    pub fn new(kind: ErrorKind, message: &str) -> (e: Self)
        ensures
            e@ == (ErrorView { kind, message: message@, detail: Seq::empty() }),
            e.told() == (Failure { kind, message: message@ }),
    {
        AppError { kind, message: message.to_owned(), detail: String::new() }
    }

    /// An error raised because an outside component failed with `detail`.
    pub fn caused(kind: ErrorKind, message: &str, detail: String) -> (e: Self)
        ensures
            e@ == (ErrorView { kind, message: message@, detail: detail@ }),
            e.told() == (Failure { kind, message: message@ }),
    {
        AppError { kind, message: message.to_owned(), detail }
    }

    /// The error reported when signing fails. The caller is told no more
    /// than that; what the signer said goes into the detail.
    pub fn from_signing(cause: jsonwebtoken::errors::Error) -> (e: Self)
        ensures
            e.told() == signing_failure(),
    {
        AppError::caused(ErrorKind::Signing, "token error", jwt_error_text(&cause))
    }

    /// The error reported when hashing fails. The caller is told no more
    /// than that; what the hasher said goes into the detail.
    pub fn from_hashing(cause: bcrypt::BcryptError) -> (e: Self)
        ensures
            e.told() == hashing_failure(),
    {
        AppError::caused(ErrorKind::Hashing, "could not hash password", bcrypt_error_text(&cause))
    }

    /// The error reported for every failure of the store.
    pub fn storage() -> (e: Self)
        ensures
            e.told() == storage_failure(),
            e.detail@ == Seq::<char>::empty(),
    {
        AppError::new(ErrorKind::Storage, "internal server error")
    }

    /// The HTTP-equivalent status under which this error is reported.
    pub fn status_code(&self) -> (code: u16)
        ensures
            code == self.kind.status(),
    {
        self.kind.status_code()
    }
}

} // verus!
