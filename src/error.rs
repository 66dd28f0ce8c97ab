use vstd::prelude::*;

verus! {

/// The ways an identity operation can fail.
#[derive(Clone, Copy, Debug, PartialEq, Eq, Structural)]
pub enum AuthError {
    /// Talking to an outside identity provider failed, or its answer was malformed.
    IdentityProvider,
    /// The identity store could not hold or write a record.
    Persistence,
    /// No session, or an expired one; the caller should log in again.
    SessionInvalid,
    /// The caller's role is too low, or the verification failed.
    AccessDenied,
    /// A required field is missing or malformed.
    BadRequest,
}

impl AuthError {
    /// The HTTP status that reports this error.
    pub open spec fn spec_status(self) -> u16 {
        match self {
            AuthError::IdentityProvider => 500,
            AuthError::Persistence => 500,
            AuthError::SessionInvalid => 401,
            AuthError::AccessDenied => 403,
            AuthError::BadRequest => 400,
        }
    }

    /// The HTTP status that reports this error.
    pub fn status_code(&self) -> (r: u16)
        ensures
            r == self.spec_status(),
    {
        match self {
            AuthError::IdentityProvider => 500,
            AuthError::Persistence => 500,
            AuthError::SessionInvalid => 401,
            AuthError::AccessDenied => 403,
            AuthError::BadRequest => 400,
        }
    }
}

} // verus!
