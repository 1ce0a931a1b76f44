//! The errors of the interface, and the answer that each becomes.

use vstd::prelude::*;
use vstd::string::StringExecFns;

use crate::data::DataError;
use crate::rest::{BAD_REQUEST, CONFLICT, INTERNAL_SERVER_ERROR, NOT_FOUND, UNAUTHORIZED};

verus! {

/// Why a request was refused.
#[derive(Debug)]
pub enum ApiError {
    /// A statement on the tables was refused.
    DataError(DataError),
    /// The stored hash of a password could not be read.
    BcryptError(bcrypt::BcryptError),
    /// The request comes from the wrong user, or with the wrong password, or
    /// under another scheme than a bearer token.
    Unauthorized,
    /// There is no such record.
    NotFound,
    /// The request names no token.
    NoAuthorizationHeader,
    /// The token of the request has run out.
    ExpiredToken,
    /// The username is taken.
    DuplicatedUsername(String),
    /// A text that should be a date is none.
    InvalidTimeString(chrono::ParseError),
    /// A failure of the service itself, with its message.
    InternalServerError(String),
}

/// What an [`ApiError`] says: the error without what the hasher or the calendar
/// reported, and with each text as its characters.
pub enum ApiFailure {
    DataError(DataError),
    BcryptError,
    Unauthorized,
    NotFound,
    NoAuthorizationHeader,
    ExpiredToken,
    DuplicatedUsername(Seq<char>),
    InvalidTimeString,
    InternalServerError(Seq<char>),
}

impl View for ApiError {
    type V = ApiFailure;

    open spec fn view(&self) -> ApiFailure {
        match *self {
            ApiError::DataError(error) => ApiFailure::DataError(error),
            ApiError::BcryptError(_) => ApiFailure::BcryptError,
            ApiError::Unauthorized => ApiFailure::Unauthorized,
            ApiError::NotFound => ApiFailure::NotFound,
            ApiError::NoAuthorizationHeader => ApiFailure::NoAuthorizationHeader,
            ApiError::ExpiredToken => ApiFailure::ExpiredToken,
            ApiError::DuplicatedUsername(username) => ApiFailure::DuplicatedUsername(username@),
            ApiError::InvalidTimeString(_) => ApiFailure::InvalidTimeString,
            ApiError::InternalServerError(message) => ApiFailure::InternalServerError(message@),
        }
    }
}

/// A result with the error replaced by what it says.
pub open spec fn failure_viewed<T>(r: Result<T, ApiError>) -> Result<T, ApiFailure> {
    match r {
        Ok(value) => Ok(value),
        Err(error) => Err(error@),
    }
}

/// The body of an answer that reports an error.
#[derive(Debug)]
pub struct ErrorResponse {
    pub error: String,
}

/// The message for a record that is not there.
pub open spec fn not_found_message() -> Seq<char> {
    "the requested resource could not be found"@
}

/// The message that tells a client that a username is taken.
pub open spec fn duplicate_message(username: Seq<char>) -> Seq<char> {
    "username "@ + username + " already exists"@
}

/// The status code that an error is answered with.
pub open spec fn status_of(failure: ApiFailure) -> u16 {
    match failure {
        ApiFailure::DataError(DataError::RowNotFound) => NOT_FOUND,
        ApiFailure::DataError(_) => INTERNAL_SERVER_ERROR,
        ApiFailure::BcryptError => INTERNAL_SERVER_ERROR,
        ApiFailure::Unauthorized => UNAUTHORIZED,
        ApiFailure::NotFound => NOT_FOUND,
        ApiFailure::NoAuthorizationHeader => UNAUTHORIZED,
        ApiFailure::ExpiredToken => UNAUTHORIZED,
        ApiFailure::DuplicatedUsername(_) => CONFLICT,
        ApiFailure::InvalidTimeString => BAD_REQUEST,
        ApiFailure::InternalServerError(_) => INTERNAL_SERVER_ERROR,
    }
}

/// The message that an error is answered with. What the store or the hasher
/// reported is not passed on to the client.
pub open spec fn message_of(failure: ApiFailure) -> Seq<char> {
    match failure {
        ApiFailure::DataError(DataError::RowNotFound) => not_found_message(),
        ApiFailure::DataError(_) => "internal server error"@,
        ApiFailure::BcryptError => "the password cannot be verified"@,
        ApiFailure::Unauthorized => "you are not allowed to do this operation"@,
        ApiFailure::NotFound => not_found_message(),
        ApiFailure::NoAuthorizationHeader => "no authorization header"@,
        ApiFailure::ExpiredToken => "your token has expired"@,
        ApiFailure::DuplicatedUsername(username) => duplicate_message(username),
        ApiFailure::InvalidTimeString => "invalid time string"@,
        ApiFailure::InternalServerError(message) => message,
    }
}

/// An answer with this status code and message.
pub fn error_response(status_code: u16, error_message: &str) -> (r: (u16, ErrorResponse))
    ensures
        r.0 == status_code,
        r.1.error@ == error_message@,
{
    (status_code, ErrorResponse { error: String::from_str(error_message) })
}

impl ApiError {
    /// The answer that this error becomes.
    pub fn into_response(self) -> (r: (u16, ErrorResponse))
        ensures
            r.0 == status_of(self@),
            r.1.error@ == message_of(self@),
    {
        match self {
            ApiError::DataError(err) => match err {
                DataError::RowNotFound => error_response(
                    NOT_FOUND,
                    "the requested resource could not be found",
                ),
                _ => error_response(INTERNAL_SERVER_ERROR, "internal server error"),
            },
            ApiError::BcryptError(_) => error_response(
                INTERNAL_SERVER_ERROR,
                "the password cannot be verified",
            ),
            ApiError::Unauthorized => error_response(
                UNAUTHORIZED,
                "you are not allowed to do this operation",
            ),
            ApiError::NotFound => error_response(
                NOT_FOUND,
                "the requested resource could not be found",
            ),
            ApiError::NoAuthorizationHeader => error_response(
                UNAUTHORIZED,
                "no authorization header",
            ),
            ApiError::ExpiredToken => error_response(UNAUTHORIZED, "your token has expired"),
            ApiError::DuplicatedUsername(username) => {
                let message = String::from_str("username ").concat(username.as_str()).concat(
                    " already exists",
                );
                error_response(CONFLICT, message.as_str())
            },
            ApiError::InvalidTimeString(_) => error_response(BAD_REQUEST, "invalid time string"),
            ApiError::InternalServerError(message) => error_response(
                INTERNAL_SERVER_ERROR,
                message.as_str(),
            ),
        }
    }
}

} // verus!
