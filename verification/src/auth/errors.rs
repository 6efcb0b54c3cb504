//! Why authentication fails, and how each failure is answered.

use vstd::prelude::*;

use crate::trusted::{biscuit_error_display, biscuit_error_text};

verus! {

/// The ways authentication of a request can fail.
#[derive(Debug)]
pub enum AuthError {
    /// The Authorization header is not valid
    InvalidAuthHeaderError,
    /// An error occured while attempting to decode the token
    JWTTokenError(biscuit::errors::Error),
    /// An error occured while attempting to identify the key id
    JWKSError,
}

/// Which of the three failures an `AuthError` is, without what it carries.
#[derive(Clone, Copy, Debug, PartialEq, Eq, Structural)]
pub enum AuthErrorKind {
    InvalidAuthHeader,
    JwtToken,
    Jwks,
}

/// A failure as the library's contracts see it: its kind and, for a token that could not be
/// decoded or verified, the decoder's description of why.
pub enum AuthFailure {
    InvalidAuthHeader,
    JwtToken(Seq<char>),
    Jwks,
}

/// The body of the response that answers a failure.
pub open spec fn failure_body(failure: AuthFailure) -> Seq<char> {
    match failure {
        AuthFailure::InvalidAuthHeader => kind_message(AuthErrorKind::InvalidAuthHeader),
        AuthFailure::JwtToken(detail) => "JWTTokenError: "@ + detail,
        AuthFailure::Jwks => kind_message(AuthErrorKind::Jwks),
    }
}

/// The HTTP status code that answers a failure of the given kind: a key that cannot be
/// identified is `401 Unauthorized`, a malformed header or token is `400 Bad Request`.
pub open spec fn kind_status(kind: AuthErrorKind) -> u16 {
    match kind {
        AuthErrorKind::InvalidAuthHeader => 400,
        AuthErrorKind::JwtToken => 400,
        AuthErrorKind::Jwks => 401,
    }
}

/// The text that names a failure of the given kind.
pub open spec fn kind_message(kind: AuthErrorKind) -> Seq<char> {
    match kind {
        AuthErrorKind::InvalidAuthHeader => "Invalid Authorization header"@,
        AuthErrorKind::JwtToken => "Invalid JWT"@,
        AuthErrorKind::Jwks => "JWK verification failed"@,
    }
}

impl AuthError {
    /// The kind of this failure.
    pub open spec fn kind(&self) -> AuthErrorKind {
        match self {
            AuthError::InvalidAuthHeaderError => AuthErrorKind::InvalidAuthHeader,
            AuthError::JWTTokenError(_) => AuthErrorKind::JwtToken,
            AuthError::JWKSError => AuthErrorKind::Jwks,
        }
    }

    /// This failure as the contracts see it.
    pub open spec fn failure(&self) -> AuthFailure {
        match self {
            AuthError::InvalidAuthHeaderError => AuthFailure::InvalidAuthHeader,
            AuthError::JWTTokenError(e) => AuthFailure::JwtToken(biscuit_error_display(*e)),
            AuthError::JWKSError => AuthFailure::Jwks,
        }
    }

    /// The HTTP status code of the response that answers this failure.
    pub fn status_code(&self) -> (code: u16)
        ensures
            code == kind_status(self.kind()),
    {
        match self {
            AuthError::InvalidAuthHeaderError => 400,
            AuthError::JWTTokenError(_) => 400,
            AuthError::JWKSError => 401,
        }
    }

    /// The text that names this failure.
    pub fn message(&self) -> (text: String)
        ensures
            text@ == kind_message(self.kind()),
    {
        match self {
            AuthError::InvalidAuthHeaderError => String::from_str("Invalid Authorization header"),
            AuthError::JWTTokenError(_) => String::from_str("Invalid JWT"),
            AuthError::JWKSError => String::from_str("JWK verification failed"),
        }
    }

    /// The body of the response that answers this failure: the failure's text, except for a
    /// token that could not be decoded, where it is `JWTTokenError: ` followed by the
    /// decoder's own description of what went wrong.
    pub fn response_body(&self) -> (body: String)
        ensures
            body@ == failure_body(self.failure()),
    {
        match self {
            AuthError::JWTTokenError(err) => {
                let detail = biscuit_error_text(err);
                String::from_str("JWTTokenError: ").concat(detail.as_str())
            },
            _ => self.message(),
        }
    }
}

} // verus!
