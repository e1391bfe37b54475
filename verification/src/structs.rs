//! The data the backend works with: its configuration, the token-exchange
//! response, and the anti-forgery state token with its cookie model.

use vstd::prelude::*;

verus! {

/// The per-request configuration of the service: the OAuth client
/// credentials and the callback address registered with the provider.
pub struct MyState {
    pub client_id: String,
    pub client_secret: String,
    pub redirect_uri: String,
}

/// The provider's answer to a successful token exchange.
pub struct TokenResponse {
    pub token_type: String,
    pub expires_in: i32,
    pub access_token: String,
    pub refresh_token: String,
}

/// A state token that was found on the callback request and matched the
/// caller's cookie.
pub struct StateToken<'r>(pub &'r str);

/// Why a callback request carried no acceptable state token.
#[derive(PartialEq, Eq, Structural, Clone, Copy, Debug)]
pub enum StateTokenError {
    /// The request had no `state` query parameter.
    Missing,
    /// The `state` query parameter could not be read, or did not match the
    /// token stored in the caller's cookie.
    Invalid,
}

/// What the process reads from the caller's cookie jar for the `state`
/// cookie: the value of the decrypted private cookie, if one was found,
/// and the value of a pending (just added, not yet sent) cookie.
pub struct SessionJar {
    pub private_state: Option<String>,
    pub pending_state: Option<String>,
}

impl SessionJar {
    /// The cookie value the state token is compared against: the private
    /// cookie when present, else the pending one.
    pub open spec fn stored_state(&self) -> Option<Seq<char>> {
        match self.private_state {
            Some(c) => Some(c@),
            None => match self.pending_state {
                Some(c) => Some(c@),
                None => None,
            },
        }
    }
}

} // verus!
