//! The typed failures of the authentication pipeline and their HTTP form.

use vstd::prelude::*;

use crate::dtos::Response;

verus! {

/// Why a token was not issued or a request was not let through.
#[derive(Clone, Copy, Debug, PartialEq, Eq, Structural)]
pub enum AuthError {
    /// The request carries no usable bearer credential.
    TokenNotProvided,
    /// A token was asked for an empty subject.
    InvalidSubject,
    /// The token is malformed, forged or expired; which one is not told.
    InvalidToken,
    /// The token's subject names no user of the store.
    UserNotFound,
    /// The user is known, but the route does not admit their role.
    PermissionDenied,
    /// The expiry of a token to issue does not fit in a timestamp.
    ExpiryOutOfRange,
    /// The signer returned an error. It has no path to one for the header
    /// and the key that issuance uses; the variant is where such a fault
    /// would go rather than into a panic.
    SigningFailed,
}

impl AuthError {
    /// The HTTP status that answers this failure.
    pub open spec fn status(self) -> u16 {
        match self {
            AuthError::TokenNotProvided => 401,
            AuthError::InvalidSubject => 401,
            AuthError::InvalidToken => 401,
            AuthError::UserNotFound => 401,
            AuthError::PermissionDenied => 403,
            AuthError::ExpiryOutOfRange => 500,
            AuthError::SigningFailed => 500,
        }
    }

    /// The message sent to the client.
    pub open spec fn text(self) -> Seq<char> {
        match self {
            AuthError::TokenNotProvided => "no token supplied"@,
            AuthError::InvalidSubject => "invalid subject"@,
            AuthError::InvalidToken => "invalid token"@,
            AuthError::UserNotFound => "user not found"@,
            AuthError::PermissionDenied => "permission denied"@,
            AuthError::ExpiryOutOfRange => "token expiry out of range"@,
            AuthError::SigningFailed => "token signing failed"@,
        }
    }

    /// Failures that mean "you may not proceed until you authenticate".
    pub open spec fn is_authentication_failure(self) -> bool {
        self.status() == 401
    }

    pub fn status_code(&self) -> (code: u16)
        ensures
            code == self.status(),
    {
        match self {
            AuthError::TokenNotProvided => 401,
            AuthError::InvalidSubject => 401,
            AuthError::InvalidToken => 401,
            AuthError::UserNotFound => 401,
            AuthError::PermissionDenied => 403,
            AuthError::ExpiryOutOfRange => 500,
            AuthError::SigningFailed => 500,
        }
    }

    pub fn message(&self) -> (text: &'static str)
        ensures
            text@ == self.text(),
    {
        match self {
            AuthError::TokenNotProvided => "no token supplied",
            AuthError::InvalidSubject => "invalid subject",
            AuthError::InvalidToken => "invalid token",
            AuthError::UserNotFound => "user not found",
            AuthError::PermissionDenied => "permission denied",
            AuthError::ExpiryOutOfRange => "token expiry out of range",
            AuthError::SigningFailed => "token signing failed",
        }
    }

    /// The HTTP error that reports this failure.
    pub fn to_http(&self) -> (err: HttpError)
        ensures
            err.message@ == self.text(),
            err.status == self.status(),
    {
        HttpError::new(self.message(), self.status_code())
    }
}

/// An error as it leaves the server: a message and an HTTP status.
#[derive(Debug)]
pub struct HttpError {
    pub message: String,
    pub status: u16,
}

impl HttpError {
    /// The `status` field of the body: client errors "fail", all others
    /// are an "error".
    pub open spec fn body_status(self) -> Seq<char> {
        if 400 <= self.status < 500 {
            "fail"@
        } else {
            "error"@
        }
    }

    pub fn new(message: &str, status: u16) -> (err: HttpError)
        ensures
            err.message@ == message@,
            err.status == status,
    {
        HttpError { message: message.to_owned(), status }
    }

    pub fn bad_request(message: &str) -> (err: HttpError)
        ensures
            err.message@ == message@,
            err.status == 400,
    {
        HttpError::new(message, 400)
    }

    pub fn server_error(message: &str) -> (err: HttpError)
        ensures
            err.message@ == message@,
            err.status == 500,
    {
        HttpError::new(message, 500)
    }

    /// The body that goes out with this error.
    pub fn to_response(&self) -> (body: Response)
        ensures
            body.status@ == self.body_status(),
            body.message@ == self.message@,
    {
        let status = if 400 <= self.status && self.status < 500 {
            "fail"
        } else {
            "error"
        };
        Response { status, message: self.message.clone() }
    }
}

} // verus!
