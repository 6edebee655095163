//! The credential handed to the caller after a successful launch, derived
//! one-to-one from the helper's authentication data.

use vstd::prelude::*;
use crate::auth::AuthData;

verus! {

/// A credential obtained from a successful authentication, carrying the
/// helper-provided authentication data losslessly.
#[derive(Clone, Debug, PartialEq, Eq)]
pub struct Credential {
    pub token: String,
}

impl Credential {
    /// What the conversion from authentication data yields: the data carried
    /// over losslessly.
    pub open spec fn spec_from(auth_data: AuthData) -> Credential {
        Credential { token: auth_data.token }
    }

    /// The lossless, total conversion from authentication data.
    pub fn from(auth_data: AuthData) -> (r: Credential)
        ensures
            r == Credential::spec_from(auth_data),
    {
        Credential { token: auth_data.token }
    }
}

} // verus!
