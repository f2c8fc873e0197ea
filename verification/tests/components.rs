//! The pieces around the flow: the session store, the OAuth client
//! configuration, profile-to-user construction, and the small config types.

use google_login::flow::{AuthError, AuthRedirect};
use google_login::oauth::oauth_client;
use google_login::session::{user_from_profile, GoogleUser, SessionData, SessionRecord};
use google_login::settings::{AppConfig, Environment, GoogleConfig, ServerConfig, SslConfig};
use google_login::store::SessionStore;

fn test_config() -> AppConfig {
    AppConfig {
        server: ServerConfig { host: "127.0.0.1".to_string(), port: 8080 },
        ssl: SslConfig { enabled: false, cert_path: None, key_path: None },
        google: GoogleConfig {
            redirect_url: "https://app.example/api/auth/callback/google".to_string(),
            auth_url: "https://accounts.google.com/o/oauth2/v2/auth".to_string(),
            token_url: "https://oauth2.googleapis.com/token".to_string(),
        },
        database_url: "postgres://localhost/app".to_string(),
        google_client_id: "client-123".to_string(),
        google_client_secret: "SECRET-REDACTED".to_string(),
    }
}

#[test]
fn store_create_load_destroy() {
    let mut store = SessionStore::new();
    assert_eq!(store.count(), 0);
    let rec = SessionRecord {
        data: SessionData::Pending {
            csrf_token: "token-1".to_string(),
            pkce_verifier: Some("verifier-1".to_string()),
        },
        expiry: Some(77),
    };
    let id = store.create(rec.clone()).expect("create should mint an id");
    assert_eq!(store.count(), 1);
    assert_eq!(store.load(id), Some(&rec));
    let id2 = store.create(rec.clone()).expect("create should mint an id");
    assert_ne!(id, id2);
    assert_eq!(store.count(), 2);
    store.destroy(id);
    assert_eq!(store.count(), 1);
    assert!(store.load(id).is_none());
    assert!(store.load(id2).is_some());
    // Destroying an absent entry changes nothing.
    store.destroy(id);
    assert_eq!(store.count(), 1);
}

#[test]
fn oauth_client_carries_the_configuration() {
    let config = test_config();
    let client = oauth_client(&config).expect("a valid configuration builds a client");
    assert_eq!(client.client_id, "client-123");
    assert_eq!(client.client_secret, "SECRET-REDACTED");
    assert_eq!(client.auth_url, config.google.auth_url);
    assert_eq!(client.token_url, config.google.token_url);
    assert_eq!(client.redirect_url, config.google.redirect_url);
}

#[test]
fn oauth_client_rejects_invalid_endpoints() {
    let mut config = test_config();
    config.google.token_url = "not a url".to_string();
    assert_eq!(oauth_client(&config).map(|_| ()), Err(AuthError::InvalidConfig));
}

#[test]
fn user_from_profile_maps_every_field() {
    let profile = GoogleUser {
        id: "42".to_string(),
        email: "a@b.com".to_string(),
        verified_email: true,
        name: "A B".to_string(),
        picture: Some("https://img.example/me.png".to_string()),
    };
    let user = user_from_profile(&profile, 1_234);
    assert_eq!(user.id, None);
    assert_eq!(user.name, Some("A B".to_string()));
    assert_eq!(user.email, "a@b.com");
    assert_eq!(user.email_verified, Some(1_234));
    assert_eq!(user.image, Some("https://img.example/me.png".to_string()));
    assert_eq!(user.created_at, 1_234);
    assert_eq!(user.updated_at, 1_234);
}

#[test]
fn unverified_email_leaves_no_verification_instant() {
    let profile = GoogleUser {
        id: "42".to_string(),
        email: "a@b.com".to_string(),
        verified_email: false,
        name: "A B".to_string(),
        picture: None,
    };
    let user = user_from_profile(&profile, 1_234);
    assert_eq!(user.email_verified, None);
    assert_eq!(user.image, None);
}

#[test]
fn environment_labels() {
    assert_eq!(Environment::Development.label(), "dev");
    assert_eq!(Environment::Production.label(), "prod");
}

#[test]
fn auth_errors_redirect_to_the_entry_point() {
    let redirect = AuthRedirect::from(AuthError::CsrfMismatch);
    assert_eq!(redirect.target(), "/");
    assert_eq!(AuthRedirect::from(AuthError::MissingSession), redirect);
}
