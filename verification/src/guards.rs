//! The request-guard decision for the callback: accept the request's state
//! token or reject the request before anything else happens.

use vstd::prelude::*;

use crate::functions::{is_valid_state_token, spec_valid_state_token};
use crate::structs::{SessionJar, StateToken, StateTokenError};

verus! {

impl<'r> StateToken<'r> {
    /// Decides whether a callback request carries an acceptable state token.
    ///
    /// `query_state` is the request's `state` query parameter as the process
    /// read it: absent, present but unreadable (`Some(Err(..))`), or its
    /// text. A missing parameter is rejected as `Missing`; an unreadable or
    /// mismatched one as `Invalid`; a token equal to the one stored in the
    /// caller's cookie jar is accepted and handed back.
    pub fn from_request(query_state: Option<Result<&'r str, ()>>, jar: &SessionJar) -> (r: Result<
        StateToken<'r>,
        StateTokenError,
    >)
        ensures
            match query_state {
                None => r matches Err(e) && e == StateTokenError::Missing,
                Some(Err(_)) => r matches Err(e) && e == StateTokenError::Invalid,
                Some(Ok(s)) => if spec_valid_state_token(*jar, s@) {
                    r matches Ok(t) && t.0@ == s@
                } else {
                    r matches Err(e) && e == StateTokenError::Invalid
                },
            },
    {
        match query_state {
            None => Err(StateTokenError::Missing),
            Some(Err(_)) => Err(StateTokenError::Invalid),
            Some(Ok(s)) => {
                if is_valid_state_token(jar, s) {
                    Ok(StateToken(s))
                } else {
                    Err(StateTokenError::Invalid)
                }
            },
        }
    }
}

} // verus!
