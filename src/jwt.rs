//! What an issued access token carries.
use vstd::prelude::*;

verus! {

/// The token handed to a participant who logged in.
#[derive(Debug, Clone)]
pub struct Passport {
    pub access_token: String,
}

/// The claims of an access token: its subject, expiry and issue time, in
/// seconds since the Unix epoch.
#[derive(Debug, Clone)]
pub struct Claims {
    pub sub: String,
    pub exp: usize,
    pub iat: usize,
}

} // verus!
