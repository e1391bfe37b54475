//! Turning the secret store's optional entries into the service's
//! configuration, with one exact error for the first entry that is missing.

use vstd::prelude::*;

verus! {

/// The entries the process reads from its secret store, each absent or
/// present.
pub struct Secrets {
    pub sentry_dsn: Option<String>,
    pub anilist_client_id: Option<String>,
    pub anilist_secret: Option<String>,
    pub redirect_url: Option<String>,
    pub database_url: Option<String>,
    pub secret_key: Option<String>,
}

/// The first missing secret, in the order the service reads them.
#[derive(PartialEq, Eq, Structural, Clone, Copy, Debug)]
pub enum ConfigError {
    MissingSentryDsn,
    MissingClientId,
    MissingClientSecret,
    MissingRedirectUrl,
    MissingDatabaseUrl,
    MissingSecretKey,
}

impl ConfigError {
    /// The text of each configuration error.
    pub open spec fn spec_message(&self) -> Seq<char> {
        match self {
            ConfigError::MissingSentryDsn => "Sentry DSN was not found"@,
            ConfigError::MissingClientId => "Anilist Client ID was not found"@,
            ConfigError::MissingClientSecret => "Anilist Secret was not found"@,
            ConfigError::MissingRedirectUrl => "Anilist Redirect URL was not found"@,
            ConfigError::MissingDatabaseUrl => "Database URL was not found"@,
            ConfigError::MissingSecretKey => "Secret Key was not found"@,
        }
    }

    /// The message shown when the service refuses to start.
    pub fn message(&self) -> (r: String)
        ensures
            r@ == self.spec_message(),
    {
        match self {
            ConfigError::MissingSentryDsn => "Sentry DSN was not found".to_owned(),
            ConfigError::MissingClientId => "Anilist Client ID was not found".to_owned(),
            ConfigError::MissingClientSecret => "Anilist Secret was not found".to_owned(),
            ConfigError::MissingRedirectUrl => "Anilist Redirect URL was not found".to_owned(),
            ConfigError::MissingDatabaseUrl => "Database URL was not found".to_owned(),
            ConfigError::MissingSecretKey => "Secret Key was not found".to_owned(),
        }
    }
}

/// Everything the running service needs, every entry present.
#[derive(Debug)]
pub struct AppConfig {
    pub sentry_dsn: String,
    pub client_id: String,
    pub client_secret: String,
    pub redirect_uri: String,
    pub database_url: String,
    pub secret_key: String,
}

/// Checks the secret store's entries in the order the service reads them
/// and builds the configuration, or names the first entry that is missing.
pub fn build_config(secrets: Secrets) -> (r: Result<AppConfig, ConfigError>)
    ensures
        r is Ok <==> {
            &&& secrets.sentry_dsn is Some
            &&& secrets.anilist_client_id is Some
            &&& secrets.anilist_secret is Some
            &&& secrets.redirect_url is Some
            &&& secrets.database_url is Some
            &&& secrets.secret_key is Some
        },
        r matches Ok(c) ==> {
            &&& c.sentry_dsn@ == secrets.sentry_dsn.unwrap()@
            &&& c.client_id@ == secrets.anilist_client_id.unwrap()@
            &&& c.client_secret@ == secrets.anilist_secret.unwrap()@
            &&& c.redirect_uri@ == secrets.redirect_url.unwrap()@
            &&& c.database_url@ == secrets.database_url.unwrap()@
            &&& c.secret_key@ == secrets.secret_key.unwrap()@
        },
        r matches Err(e) ==> e == spec_first_missing(secrets),
{
    let Secrets { sentry_dsn, anilist_client_id, anilist_secret, redirect_url, database_url, secret_key } =
        secrets;
    let sentry_dsn = match sentry_dsn {
        Some(v) => v,
        None => {
            return Err(ConfigError::MissingSentryDsn);
        },
    };
    let client_id = match anilist_client_id {
        Some(v) => v,
        None => {
            return Err(ConfigError::MissingClientId);
        },
    };
    let client_secret = match anilist_secret {
        Some(v) => v,
        None => {
            return Err(ConfigError::MissingClientSecret);
        },
    };
    let redirect_uri = match redirect_url {
        Some(v) => v,
        None => {
            return Err(ConfigError::MissingRedirectUrl);
        },
    };
    let database_url = match database_url {
        Some(v) => v,
        None => {
            return Err(ConfigError::MissingDatabaseUrl);
        },
    };
    let secret_key = match secret_key {
        Some(v) => v,
        None => {
            return Err(ConfigError::MissingSecretKey);
        },
    };
    Ok(AppConfig { sentry_dsn, client_id, client_secret, redirect_uri, database_url, secret_key })
}

/// The first absent entry, in the order the service reads them. Meaningful
/// only when at least one entry is absent.
pub open spec fn spec_first_missing(secrets: Secrets) -> ConfigError {
    if secrets.sentry_dsn is None {
        ConfigError::MissingSentryDsn
    } else if secrets.anilist_client_id is None {
        ConfigError::MissingClientId
    } else if secrets.anilist_secret is None {
        ConfigError::MissingClientSecret
    } else if secrets.redirect_url is None {
        ConfigError::MissingRedirectUrl
    } else if secrets.database_url is None {
        ConfigError::MissingDatabaseUrl
    } else {
        ConfigError::MissingSecretKey
    }
}

} // verus!
