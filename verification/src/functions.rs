//! Issuing the state token and reading the viewer id out of the provider's
//! GraphQL reply.

use vstd::prelude::*;

use crate::consts::ANILIST_USER_BASE;
use crate::consts::STATE_TOKEN_LEN;
use crate::consts::USER_QUERY;
use crate::structs::SessionJar;

verus! {

/// A character of nanoid's URL-safe alphabet: a letter, a digit, `_` or `-`.
pub open spec fn is_url_safe_char(c: char) -> bool {
    ||| c == '_'
    ||| c == '-'
    ||| '0' <= c <= '9'
    ||| 'a' <= c <= 'z'
    ||| 'A' <= c <= 'Z'
}

/// Relies on nanoid::format with the crate's default generator and URL-safe
/// alphabet: the result is a fresh random identifier of exactly
/// `STATE_TOKEN_LEN` characters, each from that alphabet. Nothing more is
/// claimed: the value is random.
#[verifier::external_body]
pub fn get_state_token() -> (r: String)
    ensures
        r@.len() == STATE_TOKEN_LEN,
        forall|i: int| 0 <= i < r@.len() ==> is_url_safe_char(#[trigger] r@[i]),
{
    nanoid::format(nanoid::rngs::default, &nanoid::alphabet::SAFE, STATE_TOKEN_LEN)
}

/// Whether `state` equals the token stored in the jar: the private cookie
/// when one was decrypted, else the pending one.
pub open spec fn spec_valid_state_token(jar: SessionJar, state: Seq<char>) -> bool {
    match jar.stored_state() {
        Some(stored) => stored == state,
        None => false,
    }
}

/// Checks a state token from the callback's query against the caller's
/// cookie, preferring the private cookie and falling back to a pending one.
pub fn is_valid_state_token(jar: &SessionJar, state: &str) -> (r: bool)
    ensures
        r == spec_valid_state_token(*jar, state@),
{
    let stored = match &jar.private_state {
        Some(c) => Some(c),
        None => match &jar.pending_state {
            Some(c) => Some(c),
            None => None,
        },
    };
    match stored {
        Some(c) => {
            let queried: String = state.to_owned();
            c.eq(&queried)
        },
        None => false,
    }
}

/// One viewer lookup, ready to be posted to the provider's GraphQL
/// endpoint: where to post, the three headers, and the request body.
pub struct ViewerRequest {
    pub url: String,
    pub authorization: String,
    pub content_type: String,
    pub accept: String,
    pub body: String,
}

/// The JSON serialization of the one-member object {"query": q}, with `q`
/// escaped, as serde_json computes it. The result depends on `q` alone.
pub uninterp spec fn json_query_body_of(q: Seq<char>) -> Seq<char>;

/// Relies on serde_json::to_string: serializes a one-entry map of strings
/// as the JSON object {"query": q}. Such a map always serializes, so the
/// fallback arm is never taken.
#[verifier::external_body]
fn json_query_body(q: &str) -> (r: String)
    ensures
        r@ == json_query_body_of(q@),
{
    let mut request = std::collections::BTreeMap::new();
    request.insert("query", q);
    match serde_json::to_string(&request) {
        Ok(s) => s,
        Err(_) => String::new(),
    }
}

/// What a well-formed viewer lookup for a given access token holds: the
/// GraphQL endpoint, a bearer header carrying the token, JSON content
/// negotiation, and the viewer query as its body.
pub open spec fn spec_viewer_request(access_token: Seq<char>, r: ViewerRequest) -> bool {
    &&& r.url@ == ANILIST_USER_BASE@
    &&& r.authorization@ == "Bearer "@ + access_token
    &&& r.content_type@ == "application/json"@
    &&& r.accept@ == "application/json"@
    &&& r.body@ == json_query_body_of(USER_QUERY@)
}

/// Builds the viewer lookup for an access token.
pub fn viewer_request(access_token: &str) -> (r: ViewerRequest)
    ensures
        spec_viewer_request(access_token@, r),
{
    let authorization = "Bearer ".to_owned().concat(access_token);
    ViewerRequest {
        url: ANILIST_USER_BASE.to_owned(),
        authorization,
        content_type: "application/json".to_owned(),
        accept: "application/json".to_owned(),
        body: json_query_body(USER_QUERY),
    }
}

/// What the provider's GraphQL reply yields, as serde_json reads it:
/// `None` when the text is no JSON document; otherwise the integer under
/// data.Viewer.id, when the document holds one there. A function of the
/// text alone.
pub uninterp spec fn viewer_id_of(body: Seq<char>) -> Option<Option<i64>>;

/// Relies on serde_json::from_str, Value::get and Value::as_i64: parses
/// the reply and walks to the integer under data.Viewer.id. `None` when
/// the text is no JSON; `Some(None)` when the document holds no integer
/// there (the member absent, null, a float, a string, or out of range);
/// `Some(Some(id))` otherwise. None of the calls panics.
#[verifier::external_body]
fn read_viewer_id(body: &str) -> (r: Option<Option<i64>>)
    ensures
        r == viewer_id_of(body@),
{
    match serde_json::from_str::<serde_json::Value>(body) {
        Ok(document) => Some(
            document
                .get("data")
                .and_then(|data| data.get("Viewer"))
                .and_then(|viewer| viewer.get("id"))
                .and_then(|id| id.as_i64()),
        ),
        Err(_) => None,
    }
}

/// Why no viewer id could be read out of the provider's reply.
#[derive(PartialEq, Eq, Structural, Clone, Copy, Debug)]
pub enum ViewerIdError {
    /// The reply was no JSON document.
    InvalidJson,
    /// The document held no integer under data.Viewer.id.
    MissingId,
}

impl ViewerIdError {
    /// The text of each lookup error.
    pub open spec fn spec_message(&self) -> Seq<char> {
        match self {
            ViewerIdError::InvalidJson => "Failed to parse viewer response"@,
            ViewerIdError::MissingId => "Failed to parse viewer id"@,
        }
    }

    /// The message shown to the caller when the lookup's reply was unusable.
    pub fn message(&self) -> (r: String)
        ensures
            r@ == self.spec_message(),
    {
        match self {
            ViewerIdError::InvalidJson => "Failed to parse viewer response".to_owned(),
            ViewerIdError::MissingId => "Failed to parse viewer id".to_owned(),
        }
    }
}

/// Reads the viewer id out of the provider's GraphQL reply: the id exactly
/// when the reply is a JSON document with an integer under data.Viewer.id,
/// the parse error exactly when the reply is no JSON, and the id error
/// exactly when the document holds no integer there.
pub fn extract_viewer_id(body: &str) -> (r: Result<i64, ViewerIdError>)
    ensures
        r == match viewer_id_of(body@) {
            None => Err::<i64, ViewerIdError>(ViewerIdError::InvalidJson),
            Some(None) => Err::<i64, ViewerIdError>(ViewerIdError::MissingId),
            Some(Some(id)) => Ok::<i64, ViewerIdError>(id),
        },
{
    match read_viewer_id(body) {
        None => Err(ViewerIdError::InvalidJson),
        Some(None) => Err(ViewerIdError::MissingId),
        Some(Some(id)) => Ok(id),
    }
}

} // verus!
