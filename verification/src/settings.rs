//! Application configuration: server binding, TLS, database and OAuth
//! provider settings. The values are plain data; reading them from files or
//! the environment happens outside the library.

use vstd::prelude::*;

verus! {

/// Where the server binds.
#[derive(Debug, Clone)]
pub struct ServerConfig {
    pub host: String,
    pub port: u16,
}

/// Whether and how TLS is served.
#[derive(Debug, Clone)]
pub struct SslConfig {
    pub enabled: bool,
    pub cert_path: Option<String>,
    pub key_path: Option<String>,
}

/// The provider endpoints of the OAuth flow.
#[derive(Debug, Clone)]
pub struct GoogleConfig {
    pub redirect_url: String,
    pub auth_url: String,
    pub token_url: String,
}

/// The whole application configuration.
#[derive(Debug, Clone)]
pub struct AppConfig {
    pub server: ServerConfig,
    pub ssl: SslConfig,
    pub google: GoogleConfig,
    pub database_url: String,
    pub google_client_id: String,
    pub google_client_secret: String,
}

/// The deployment environment a configuration belongs to.
#[derive(Debug, Clone, Copy, PartialEq, Eq, Structural)]
pub enum Environment {
    Development,
    Production,
}

impl Environment {
    /// The short name under which the environment's configuration is keyed.
    pub fn label(&self) -> (s: String)
        ensures
            *self == Environment::Production ==> s@ == "prod"@,
            *self == Environment::Development ==> s@ == "dev"@,
    {
        match self {
            Environment::Production => "prod".to_owned(),
            Environment::Development => "dev".to_owned(),
        }
    }
}

} // verus!
