//! Messages of the cloud authentication service.

use vstd::prelude::*;

verus! {

/// The credentials presented when authenticating: a credential kind and its
/// secret payload.
#[derive(Clone, Debug, PartialEq, Eq)]
pub struct Credentials {
    /// The credential kind; the firmware always presents `robot-secret`.
    pub typ: String,
    pub payload: String,
}

/// The authentication request: which entity authenticates, and with what.
#[derive(Clone, Debug, PartialEq, Eq)]
pub struct AuthenticateRequest {
    pub entity: String,
    pub credentials: Option<Credentials>,
}

/// The authentication response: an opaque bearer token for later requests.
#[derive(Clone, Debug, PartialEq, Eq)]
pub struct AuthenticateResponse {
    pub access_token: String,
}

} // verus!
