//! Errors of the value types and of the protocol.

use vstd::prelude::*;

verus! {

/// Why a raw value was refused by one of the value types.
#[derive(Clone, Copy, Debug, PartialEq, Eq, Structural)]
pub enum ValidationError {
    InvalidEmail,
    InvalidPassword,
    InvalidLoginAttemptId,
    InvalidTwoFACode,
}

/// What a client is told when a request fails.
#[derive(Clone, Copy, Debug, PartialEq, Eq, Structural)]
pub enum AuthAPIError {
    UserAlreadyExists,
    InvalidCredentials,
    IncorrectCredentials,
    MissingToken,
    InvalidToken,
    UnexpectedError,
}

impl AuthAPIError {
    /// The HTTP status that reports this error.
    pub open spec fn spec_status_code(self) -> u16 {
        match self {
            AuthAPIError::UserAlreadyExists => 409,
            AuthAPIError::InvalidCredentials => 400,
            AuthAPIError::IncorrectCredentials => 401,
            AuthAPIError::MissingToken => 400,
            AuthAPIError::InvalidToken => 401,
            AuthAPIError::UnexpectedError => 500,
        }
    }

    /// The HTTP status that reports this error.
    #[verifier::when_used_as_spec(spec_status_code)]
    pub fn status_code(self) -> (code: u16)
        ensures
            code == self.spec_status_code(),
    {
        match self {
            AuthAPIError::UserAlreadyExists => 409,
            AuthAPIError::InvalidCredentials => 400,
            AuthAPIError::IncorrectCredentials => 401,
            AuthAPIError::MissingToken => 400,
            AuthAPIError::InvalidToken => 401,
            AuthAPIError::UnexpectedError => 500,
        }
    }

    /// The message sent to the client. It never carries internal detail.
    pub fn message(self) -> (text: &'static str)
        ensures
            text@ == (match self {
                AuthAPIError::UserAlreadyExists => "User already exists"@,
                AuthAPIError::InvalidCredentials => "Invalid credentials"@,
                AuthAPIError::IncorrectCredentials => "Incorrect credentials"@,
                AuthAPIError::MissingToken => "Missing token"@,
                AuthAPIError::InvalidToken => "Invalid token"@,
                AuthAPIError::UnexpectedError => "Unexpected error"@,
            }),
    {
        match self {
            AuthAPIError::UserAlreadyExists => "User already exists",
            AuthAPIError::InvalidCredentials => "Invalid credentials",
            AuthAPIError::IncorrectCredentials => "Incorrect credentials",
            AuthAPIError::MissingToken => "Missing token",
            AuthAPIError::InvalidToken => "Invalid token",
            AuthAPIError::UnexpectedError => "Unexpected error",
        }
    }
}

} // verus!
