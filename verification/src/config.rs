//! The settings that the server is started with.

use std::collections::HashMap;
use vstd::prelude::*;

verus! {

/// All settings.
#[derive(Debug)]
pub struct Config {
    pub rust_log: String,
    pub database_url: String,
    /// The base address of the API.
    pub api_url: String,
    /// The base address that media is served from.
    pub cdn_url: String,
    /// Where uploads are stored.
    pub s3: ConfigS3,
    /// The OAuth providers, by name.
    pub oauth_provider: HashMap<String, ConfigOauthProvider>,
    pub url_preview: ConfigUrlPreview,
    pub smtp: ConfigSmtp,
    pub otel_trace_endpoint: Option<String>,
    /// The token shared with the media unit.
    pub sfu_token: String,
}

/// The object store.
#[derive(Debug)]
pub struct ConfigS3 {
    pub bucket: String,
    pub endpoint: String,
    pub region: String,
    pub access_key_id: String,
    pub secret_access_key: String,
}

/// One OAuth provider.
#[derive(Debug)]
pub struct ConfigOauthProvider {
    pub client_id: String,
    pub client_secret: String,
    pub authorization_url: String,
    pub token_url: String,
    pub revocation_url: String,
}

/// How link previews are fetched.
#[derive(Debug)]
pub struct ConfigUrlPreview {
    pub user_agent: String,
    /// The networks that are never fetched from, in CIDR notation.
    pub deny: Vec<String>,
}

/// The mail server.
#[derive(Debug)]
pub struct ConfigSmtp {
    pub username: String,
    pub password: String,
    pub host: String,
}

impl Clone for ConfigSmtp {
    fn clone(&self) -> (r: Self)
        ensures
            r == *self,
    {
        ConfigSmtp {
            username: self.username.clone(),
            password: self.password.clone(),
            host: self.host.clone(),
        }
    }
}

} // verus!
