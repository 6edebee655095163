//! Launching an external SAML authentication helper process: building its
//! argument list from optional parameters, and classifying the helper's
//! captured output into a credential, an explicit "no credential" outcome,
//! or a typed error.

pub mod auth;
pub mod auth_launcher;
pub mod credential;
