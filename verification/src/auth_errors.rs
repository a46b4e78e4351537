//! Error taxonomy of the authentication subsystem.

use vstd::prelude::*;

verus! {

/// Every failure of the authentication subsystem, one variant per cause.
#[derive(Clone, Copy, Debug, PartialEq, Eq, Structural)]
pub enum AuthServiceError {
    /// Identity creation failed: the username is taken or storage refused.
    FailedToRegister,
    /// Credential mismatch, or a session could not be created.
    FailedToAuthenticate,
    /// The session is absent or expired; the two are indistinguishable.
    InvalidSessionToken,
    /// No credential was supplied with the request.
    GenerallyForbidden,
    /// Reserved for request-integrity checks; always rejects.
    SuspiciousRequest,
}

/// The HTTP status code that a transport layer renders for each error kind.
pub open spec fn auth_status_code(e: AuthServiceError) -> u16 {
    match e {
        AuthServiceError::FailedToRegister => 412,
        AuthServiceError::FailedToAuthenticate => 401,
        AuthServiceError::InvalidSessionToken => 401,
        AuthServiceError::GenerallyForbidden => 403,
        AuthServiceError::SuspiciousRequest => 401,
    }
}

/// The short, fixed message shown for each error kind; it never says which
/// part of a credential was wrong.
pub open spec fn auth_message(e: AuthServiceError) -> Seq<char> {
    match e {
        AuthServiceError::FailedToRegister => "Failed to register user"@,
        AuthServiceError::FailedToAuthenticate => "Failed to authenticate user"@,
        AuthServiceError::InvalidSessionToken => "Invalid session token"@,
        AuthServiceError::GenerallyForbidden => "User is just not allowed to do this"@,
        AuthServiceError::SuspiciousRequest => "There might be an attacker in the middle"@,
    }
}

impl AuthServiceError {
    /// The HTTP status code this error maps to.
    pub fn status_code(&self) -> (c: u16)
        ensures
            c == auth_status_code(*self),
    {
        match self {
            AuthServiceError::FailedToRegister => 412,
            AuthServiceError::FailedToAuthenticate => 401,
            AuthServiceError::InvalidSessionToken => 401,
            AuthServiceError::GenerallyForbidden => 403,
            AuthServiceError::SuspiciousRequest => 401,
        }
    }

    /// The user-visible message for this error.
    pub fn message(&self) -> (m: String)
        ensures
            m@ == auth_message(*self),
    {
        match self {
            AuthServiceError::FailedToRegister => "Failed to register user".to_owned(),
            AuthServiceError::FailedToAuthenticate => "Failed to authenticate user".to_owned(),
            AuthServiceError::InvalidSessionToken => "Invalid session token".to_owned(),
            AuthServiceError::GenerallyForbidden => "User is just not allowed to do this".to_owned(),
            AuthServiceError::SuspiciousRequest => "There might be an attacker in the middle".to_owned(),
        }
    }
}

} // verus!
