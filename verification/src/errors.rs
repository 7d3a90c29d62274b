//! The failures that the service reports, with the text and the HTTP status
//! that each is answered with.

use vstd::prelude::*;

verus! {

/// A failure of a request.
#[derive(Debug, Clone, Copy, PartialEq, Eq, Structural)]
pub enum MyError {
    /// The store failed, or an access credential could not be read while the
    /// refresh credential was live.
    InternalError,
    /// The client sent data that cannot be accepted.
    BadClientData,
    /// A collaborator did not answer in time.
    Timeout,
    /// A credential is absent or the refresh credential is not live: the
    /// caller has to authenticate again.
    AuthError,
    /// A credential is malformed: badly encoded, or not signed for its class.
    DecodeError,
    /// A credential has expired.
    TokenExpirationError,
    /// The caller is known but may not do this.
    Unauthorized,
    /// No credential could be signed for the class.
    SigningError,
    /// Login failed: unknown name or wrong secret, which the caller cannot
    /// tell apart.
    BadCredentials,
}

impl MyError {
    /// The HTTP status that answers this failure.
    pub open spec fn spec_status_code(&self) -> u16 {
        match self {
            MyError::InternalError => 500,
            MyError::BadClientData => 400,
            MyError::Timeout => 504,
            MyError::AuthError => 404,
            MyError::DecodeError => 500,
            MyError::TokenExpirationError => 401,
            MyError::Unauthorized => 401,
            MyError::SigningError => 500,
            MyError::BadCredentials => 401,
        }
    }

    /// The text that answers this failure.
    pub open spec fn spec_message(&self) -> Seq<char> {
        match self {
            MyError::InternalError => "internal error"@,
            MyError::BadClientData => "bad request"@,
            MyError::Timeout => "timeout"@,
            MyError::AuthError => "authentication error"@,
            MyError::DecodeError => "token decoding error"@,
            MyError::TokenExpirationError => "token expired"@,
            MyError::Unauthorized => "unauthorized"@,
            MyError::SigningError => "token signing error"@,
            MyError::BadCredentials => "bad credentials"@,
        }
    }

    /// The HTTP status that answers this failure.
    #[verifier::when_used_as_spec(spec_status_code)]
    pub fn status_code(&self) -> (code: u16)
        ensures
            code == self.spec_status_code(),
    {
        match self {
            MyError::InternalError => 500,
            MyError::BadClientData => 400,
            MyError::Timeout => 504,
            MyError::AuthError => 404,
            MyError::DecodeError => 500,
            MyError::TokenExpirationError => 401,
            MyError::Unauthorized => 401,
            MyError::SigningError => 500,
            MyError::BadCredentials => 401,
        }
    }

    /// The text that answers this failure.
    pub fn message(&self) -> (text: String)
        ensures
            text@ == self.spec_message(),
    {
        match self {
            MyError::InternalError => String::from_str("internal error"),
            MyError::BadClientData => String::from_str("bad request"),
            MyError::Timeout => String::from_str("timeout"),
            MyError::AuthError => String::from_str("authentication error"),
            MyError::DecodeError => String::from_str("token decoding error"),
            MyError::TokenExpirationError => String::from_str("token expired"),
            MyError::Unauthorized => String::from_str("unauthorized"),
            MyError::SigningError => String::from_str("token signing error"),
            MyError::BadCredentials => String::from_str("bad credentials"),
        }
    }
}

} // verus!
