//! The server's configuration, resolved from the values of its environment
//! variables.
use vstd::prelude::*;

use crate::text::{clone_opt, opt_view, or_default, owned};

verus! {

/// The configuration of the server.
#[derive(Debug, Clone)]
pub struct Config {
    pub bind_address: String,
    pub base_url: String,
    pub database_url: String,
    pub redis_url: String,
    pub session_secret: String,
    pub turnstile_site_key: String,
    pub turnstile_secret_key: String,
    pub google_client_id: Option<String>,
    pub google_client_secret: Option<String>,
    pub google_redirect_url: Option<String>,
    pub github_client_id: Option<String>,
    pub github_client_secret: Option<String>,
    pub github_redirect_url: Option<String>,
    pub gcs_bucket: Option<String>,
    pub gcs_credentials_path: Option<String>,
    pub translation_api_key: Option<String>,
    pub smtp_username: Option<String>,
    pub smtp_password: Option<String>,
    pub smtp_server: Option<String>,
}

/// The values of the environment variables the server reads (`None` where unset).
pub struct EnvVars {
    pub bind_address: Option<String>,
    pub base_url: Option<String>,
    pub database_url: Option<String>,
    pub redis_url: Option<String>,
    pub session_secret: Option<String>,
    pub turnstile_site_key: Option<String>,
    pub turnstile_secret_key: Option<String>,
    pub google_client_id: Option<String>,
    pub google_client_secret: Option<String>,
    pub google_redirect_url: Option<String>,
    pub github_client_id: Option<String>,
    pub github_client_secret: Option<String>,
    pub github_redirect_url: Option<String>,
    pub gcs_bucket: Option<String>,
    pub gcs_credentials_path: Option<String>,
    pub translation_api_key: Option<String>,
    pub smtp_username: Option<String>,
    pub smtp_password: Option<String>,
    pub smtp_server: Option<String>,
}

/// The name of the first required variable that is unset, in the order the
/// server reads them.
pub open spec fn first_missing(v: EnvVars) -> Option<Seq<char>> {
    if v.database_url is None {
        Some("DATABASE_URL must be set"@)
    } else if v.redis_url is None {
        Some("REDIS_URL must be set"@)
    } else if v.session_secret is None {
        Some("SESSION_SECRET must be set"@)
    } else if v.turnstile_site_key is None {
        Some("TURNSTILE_SITE_KEY must be set"@)
    } else if v.turnstile_secret_key is None {
        Some("TURNSTILE_SECRET_KEY must be set"@)
    } else {
        None
    }
}

fn required(v: &Option<String>, msg: &str) -> (r: Result<String, String>)
    ensures
        match r {
            Ok(s) => *v == Some(s),
            Err(m) => v.is_none() && m@ == msg@,
        },
{
    match v {
        Some(s) => Ok(s.clone()),
        None => Err(owned(msg)),
    }
}

impl Config {
    /// Resolves the configuration: the bind address defaults to
    /// `127.0.0.1:8080`, the base URL to `http://localhost:8080`; the database,
    /// Redis, session and Turnstile settings are required (the error names the
    /// first one missing); the rest are optional.
    pub fn from_vars(v: &EnvVars) -> (r: Result<Config, String>)
        ensures
            match r {
                Err(m) => first_missing(*v) == Some(m@),
                Ok(c) => {
                    &&& first_missing(*v) is None
                    &&& c.bind_address@ == or_default(v.bind_address, "127.0.0.1:8080"@)
                    &&& c.base_url@ == or_default(v.base_url, "http://localhost:8080"@)
                    &&& Some(c.database_url) == v.database_url
                    &&& Some(c.redis_url) == v.redis_url
                    &&& Some(c.session_secret) == v.session_secret
                    &&& Some(c.turnstile_site_key) == v.turnstile_site_key
                    &&& Some(c.turnstile_secret_key) == v.turnstile_secret_key
                    &&& opt_view(c.google_client_id) == opt_view(v.google_client_id)
                    &&& opt_view(c.google_client_secret) == opt_view(v.google_client_secret)
                    &&& opt_view(c.google_redirect_url) == opt_view(v.google_redirect_url)
                    &&& opt_view(c.github_client_id) == opt_view(v.github_client_id)
                    &&& opt_view(c.github_client_secret) == opt_view(v.github_client_secret)
                    &&& opt_view(c.github_redirect_url) == opt_view(v.github_redirect_url)
                    &&& opt_view(c.gcs_bucket) == opt_view(v.gcs_bucket)
                    &&& opt_view(c.gcs_credentials_path) == opt_view(v.gcs_credentials_path)
                    &&& opt_view(c.translation_api_key) == opt_view(v.translation_api_key)
                    &&& opt_view(c.smtp_username) == opt_view(v.smtp_username)
                    &&& opt_view(c.smtp_password) == opt_view(v.smtp_password)
                    &&& opt_view(c.smtp_server) == opt_view(v.smtp_server)
                },
            },
    {
        let bind_address = match &v.bind_address {
            Some(s) => s.clone(),
            None => owned("127.0.0.1:8080"),
        };
        let base_url = match &v.base_url {
            Some(s) => s.clone(),
            None => owned("http://localhost:8080"),
        };
        let database_url = required(&v.database_url, "DATABASE_URL must be set")?;
        let redis_url = required(&v.redis_url, "REDIS_URL must be set")?;
        let session_secret = required(&v.session_secret, "SESSION_SECRET must be set")?;
        let turnstile_site_key = required(&v.turnstile_site_key, "TURNSTILE_SITE_KEY must be set")?;
        let turnstile_secret_key = required(&v.turnstile_secret_key, "TURNSTILE_SECRET_KEY must be set")?;
        Ok(Config {
            bind_address,
            base_url,
            database_url,
            redis_url,
            session_secret,
            turnstile_site_key,
            turnstile_secret_key,
            google_client_id: clone_opt(&v.google_client_id),
            google_client_secret: clone_opt(&v.google_client_secret),
            google_redirect_url: clone_opt(&v.google_redirect_url),
            github_client_id: clone_opt(&v.github_client_id),
            github_client_secret: clone_opt(&v.github_client_secret),
            github_redirect_url: clone_opt(&v.github_redirect_url),
            gcs_bucket: clone_opt(&v.gcs_bucket),
            gcs_credentials_path: clone_opt(&v.gcs_credentials_path),
            translation_api_key: clone_opt(&v.translation_api_key),
            smtp_username: clone_opt(&v.smtp_username),
            smtp_password: clone_opt(&v.smtp_password),
            smtp_server: clone_opt(&v.smtp_server),
        })
    }
}

} // verus!
