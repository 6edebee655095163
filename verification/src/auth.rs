//! The outcome reported by the authentication helper, and the errors a
//! launch can surface from decoding that outcome.

use vstd::prelude::*;

verus! {

/// Opaque authentication data carried by a successful helper outcome; it is
/// converted losslessly into a [`crate::credential::Credential`].
#[derive(Clone, Debug, PartialEq, Eq)]
pub struct AuthData {
    pub token: String,
}

/// The tagged union the helper prints on its standard output when it is not
/// running in default-browser mode: either authentication data, or a
/// human-readable failure message.
#[derive(Clone, Debug, PartialEq, Eq)]
pub enum SamlAuthResult {
    Success(AuthData),
    Failure(String),
}

/// An error surfaced by decoding the helper's output.
#[derive(Clone, Debug, PartialEq, Eq)]
pub enum AuthError {
    /// The captured output did not decode as the expected tagged union.
    ParseFailed,
    /// The helper itself reported an authentication failure; the message is
    /// passed through unmodified.
    AuthFailed(String),
}

impl AuthError {
    /// The human-readable message of this error: the fixed parse-failure
    /// text, or the helper's own failure message verbatim.
    pub fn message(&self) -> (r: String)
        ensures
            r@ == self.spec_message(),
    {
        match self {
            AuthError::ParseFailed => "Failed to parse auth data".to_owned(),
            AuthError::AuthFailed(msg) => msg.clone(),
        }
    }

    pub open spec fn spec_message(&self) -> Seq<char> {
        match self {
            AuthError::ParseFailed => "Failed to parse auth data"@,
            AuthError::AuthFailed(msg) => msg@,
        }
    }
}

} // verus!
