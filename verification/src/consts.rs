//! The fixed addresses and texts of the service.

use vstd::prelude::*;

verus! {

/// The provider's authorization endpoint, where the login redirect points.
pub const ANILIST_AUTH: &'static str = "https://anilist.co/api/v2/oauth/authorize";

/// The provider's token endpoint, where the authorization code is exchanged.
pub const ANILIST_TOKEN: &'static str = "https://anilist.co/api/v2/oauth/token";

/// The provider's GraphQL endpoint, used to look up the caller's viewer id.
pub const ANILIST_USER_BASE: &'static str = "https://graphql.anilist.co";

/// The GraphQL query that asks for the authenticated viewer's id.
pub const USER_QUERY: &'static str = "
    query {
        Viewer {
            id
        }
    }
    ";

/// The statement that stores an access token against a viewer's row.
pub const SAVE_TOKEN_SQL: &'static str = "UPDATE users SET access_token=$1 WHERE anilist_id=$2";

/// How many characters a freshly issued state token has.
pub const STATE_TOKEN_LEN: usize = 32;

/// How long the state cookie lives, in seconds (five minutes).
pub const STATE_COOKIE_TTL_SECS: u64 = 300;

/// The name of the cookie that carries the state token.
pub const STATE_COOKIE_NAME: &'static str = "state";

} // verus!
