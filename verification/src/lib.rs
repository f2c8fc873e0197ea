//! Server-side "Login with Google" core: the OAuth2 authorization-code flow
//! with PKCE, combined with session lifecycle management.
//!
//! The library owns the state machine of a login attempt: it mints the
//! short-lived, single-use secrets (CSRF token and PKCE verifier), keeps them
//! in a pending session, validates the provider callback exactly once, and
//! promotes the pending session into an authenticated one. The session store
//! is an opaque key-value store from store-generated identifiers to typed
//! records with an optional expiry.
//!
//! Network work (the token exchange and the profile fetch) happens outside the
//! library; callers hand its results back as plain values and the library
//! decides every transition.

pub mod flow;
pub mod oauth;
pub mod session;
pub mod settings;
pub mod store;
