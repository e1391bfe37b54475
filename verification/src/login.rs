//! The login endpoint's decision: a fresh state token, the cookie that
//! remembers it, and the provider's authorization URL to redirect to.

use vstd::prelude::*;

use crate::consts::ANILIST_AUTH;
use crate::consts::STATE_COOKIE_NAME;
use crate::consts::STATE_COOKIE_TTL_SECS;
use crate::consts::STATE_TOKEN_LEN;
use crate::functions::get_state_token;
use crate::functions::is_url_safe_char;
use crate::structs::MyState;

verus! {

/// An order to set the state cookie: its name, its value, and how many
/// seconds it may live.
pub struct StateCookie {
    pub name: String,
    pub value: String,
    pub ttl_secs: u64,
}

/// What the login endpoint answers: the URL to redirect the caller to, and
/// the cookie that remembers the state token for the callback.
pub struct LoginRedirect {
    pub url: String,
    pub cookie: StateCookie,
}

/// The views of a list of query parameters, in order.
pub open spec fn pairs_view(ps: Seq<(String, String)>) -> Seq<(Seq<char>, Seq<char>)> {
    ps.map_values(|p: (String, String)| (p.0@, p.1@))
}

/// The serialization of `base` parsed as a URL with `params` appended to
/// its query, keys and values percent-encoded, as url::Url::parse_with_params
/// computes it. The result depends on the arguments alone.
pub uninterp spec fn with_params_of(base: Seq<char>, params: Seq<(Seq<char>, Seq<char>)>) -> Seq<
    char,
>;

/// Relies on url::Url::parse_with_params: parses `base`, appends each pair
/// of `params` to its query (percent-encoding keys and values), and on
/// url's Display for the serialization. `None` only when `base` is no
/// valid URL: appending pairs cannot fail, and the authorization base is a
/// well-formed absolute URL that url's parser accepts, so for it the call
/// succeeds.
#[verifier::external_body]
fn url_with_params(base: &str, params: &Vec<(String, String)>) -> (r: Option<String>)
    ensures
        r matches Some(u) ==> u@ == with_params_of(base@, pairs_view(params@)),
        base@ == ANILIST_AUTH@ ==> r is Some,
{
    match url::Url::parse_with_params(base, params.iter().map(|p| (p.0.as_str(), p.1.as_str()))) {
        Ok(u) => Some(u.to_string()),
        Err(_) => None,
    }
}

/// The query parameters of the authorization redirect, in the order they
/// are appended: the configured client id, the configured callback address,
/// the response type `code`, and the state token.
pub open spec fn spec_login_params(state: MyState, token: Seq<char>) -> Seq<
    (Seq<char>, Seq<char>),
> {
    seq![
        ("client_id"@, state.client_id@),
        ("redirect_uri"@, state.redirect_uri@),
        ("response_type"@, "code"@),
        ("state"@, token),
    ]
}

/// Builds the authorization redirect for a given state token, for every
/// state and token: the URL carries the configured client id and callback
/// address, the response type `code`, and the token; the cookie remembers
/// the token for five minutes.
pub fn login_with_token(state: &MyState, state_token: String) -> (r: LoginRedirect)
    ensures
        r.url@ == with_params_of(ANILIST_AUTH@, spec_login_params(*state, state_token@)),
        r.cookie.name@ == STATE_COOKIE_NAME@,
        r.cookie.value@ == state_token@,
        r.cookie.ttl_secs == STATE_COOKIE_TTL_SECS,
{
    let mut params: Vec<(String, String)> = Vec::new();
    params.push(("client_id".to_owned(), state.client_id.clone()));
    params.push(("redirect_uri".to_owned(), state.redirect_uri.clone()));
    params.push(("response_type".to_owned(), "code".to_owned()));
    params.push(("state".to_owned(), state_token.clone()));
    proof {
        assert(pairs_view(params@) =~= spec_login_params(*state, state_token@));
    }
    match url_with_params(ANILIST_AUTH, &params) {
        Some(url) => LoginRedirect {
            url,
            cookie: StateCookie {
                name: STATE_COOKIE_NAME.to_owned(),
                value: state_token,
                ttl_secs: STATE_COOKIE_TTL_SECS,
            },
        },
        None => unreached(),
    }
}

/// The login endpoint: always answers, for every state, with a redirect to
/// the provider's authorization URL carrying the configured client id and
/// callback address, and with the cookie that remembers the fresh state
/// token.
pub fn login(state: &MyState) -> (r: LoginRedirect)
    ensures
        r.url@ == with_params_of(ANILIST_AUTH@, spec_login_params(*state, r.cookie.value@)),
        r.cookie.name@ == STATE_COOKIE_NAME@,
        r.cookie.value@.len() == STATE_TOKEN_LEN,
        forall|i: int|
            0 <= i < r.cookie.value@.len() ==> is_url_safe_char(#[trigger] r.cookie.value@[i]),
        r.cookie.ttl_secs == STATE_COOKIE_TTL_SECS,
{
    let token = get_state_token();
    login_with_token(state, token)
}

} // verus!
