//! The OAuth client: provider configuration, fresh login secrets, and the
//! provider authorization URL.
//!
//! The secrets and the URL come from the `oauth2` crate through trusted
//! wrappers; everything stated about them is what that crate's source shows.
//! The token exchange itself is a network call and stays outside the library:
//! callers perform it and hand the outcome back as plain values.

use vstd::prelude::*;

use crate::flow::AuthError;
use crate::settings::AppConfig;

verus! {

/// Whether a string is a syntactically valid URL, as `url::Url::parse`
/// accepts it — the parser behind `oauth2`'s endpoint types.
pub uninterp spec fn url_ok(s: Seq<char>) -> bool;

/// The authorization URL `oauth2` builds from an authorization endpoint, a
/// client id, a redirect URI, a CSRF state, a PKCE verifier (whose SHA-256
/// challenge is embedded) and a scope list. The build is a pure function of
/// these inputs.
pub uninterp spec fn authorize_url_of(
    auth_url: Seq<char>,
    client_id: Seq<char>,
    redirect_url: Seq<char>,
    state: Seq<char>,
    verifier: Seq<char>,
    scopes: Seq<Seq<char>>,
) -> Seq<char>;

/// Provider configuration: endpoints and credentials of the OAuth client,
/// held as plain strings.
#[derive(Debug, Clone)]
pub struct OAuthClient {
    pub client_id: String,
    pub client_secret: String,
    pub auth_url: String,
    pub token_url: String,
    pub redirect_url: String,
}

/// Relies on `oauth2::CsrfToken::new_random`: the base64url encoding of 16
/// fresh random bytes, hence 22 ASCII characters (128 bits of entropy). The
/// value itself is random; nothing more is assumed of it.
#[verifier::external_body]
pub(crate) fn fresh_csrf_token() -> (t: String)
    ensures
        t@.len() == 22,
        vstd::utf8::is_ascii_chars(t@),
{
    oauth2::CsrfToken::new_random().secret().clone()
}

/// Relies on `oauth2::PkceCodeChallenge::new_random_sha256`: the verifier is
/// the base64url encoding of 32 fresh random bytes, hence 43 ASCII
/// characters (the RFC 7636 minimum, 256 bits of entropy). The value itself
/// is random; nothing more is assumed of it.
#[verifier::external_body]
pub(crate) fn fresh_pkce_verifier() -> (v: String)
    ensures
        v@.len() == 43,
        vstd::utf8::is_ascii_chars(v@),
{
    let (_, verifier) = oauth2::PkceCodeChallenge::new_random_sha256();
    verifier.secret().clone()
}

/// Relies on `oauth2::AuthUrl::new`, which accepts exactly the strings
/// `url::Url::parse` accepts.
#[verifier::external_body]
pub(crate) fn url_is_wellformed(s: &str) -> (b: bool)
    ensures
        b == url_ok(s@),
{
    oauth2::AuthUrl::new(s.to_string()).is_ok()
}

/// Relies on `oauth2`'s `AuthorizationRequest::url`: the URL is built
/// deterministically from the endpoint and the query parameters, and the
/// build fails exactly when the endpoint or the redirect URI is not a valid
/// URL. `PkceCodeChallenge::from_code_verifier_sha256` panics when the
/// verifier is outside 43..=128 *bytes*; the preconditions rule that out by
/// bounding the character count and demanding ASCII, where a character is a
/// byte.
#[verifier::external_body]
pub(crate) fn build_authorize_url(
    auth_url: &str,
    client_id: &str,
    redirect_url: &str,
    state: &str,
    verifier: &str,
    scopes: &Vec<String>,
) -> (r: Option<String>)
    requires
        43 <= verifier@.len() <= 128,
        vstd::utf8::is_ascii_chars(verifier@),
    ensures
        (r is Some ==> url_ok(auth_url@)),
        (r is Some ==> url_ok(redirect_url@)),
        (r is None ==> !url_ok(auth_url@) || !url_ok(redirect_url@)),
        (r matches Some(u) ==> u@ == authorize_url_of(
            auth_url@,
            client_id@,
            redirect_url@,
            state@,
            verifier@,
            scopes.deep_view(),
        )),
{
    let endpoint = oauth2::AuthUrl::new(auth_url.to_string()).ok()?;
    let redirect = oauth2::RedirectUrl::new(redirect_url.to_string()).ok()?;
    let id = oauth2::ClientId::new(client_id.to_string());
    let client = oauth2::basic::BasicClient::new(id, None, endpoint, None).set_redirect_uri(redirect);
    let pkce = oauth2::PkceCodeVerifier::new(verifier.to_string());
    let challenge = oauth2::PkceCodeChallenge::from_code_verifier_sha256(&pkce);
    let csrf = oauth2::CsrfToken::new(state.to_string());
    let scope_list = scopes.iter().map(|s| oauth2::Scope::new(s.clone()));
    let request = client.authorize_url(move || csrf);
    Some(request.add_scopes(scope_list).set_pkce_challenge(challenge).url().0.to_string())
}

/// Builds the OAuth client from the configuration, checking that every
/// provider endpoint is a syntactically valid URL; on success the client
/// carries the configuration's values unchanged.
pub fn oauth_client(config: &AppConfig) -> (r: Result<OAuthClient, AuthError>)
    ensures
        r is Ok <==> url_ok(config.google.auth_url@) && url_ok(config.google.token_url@)
            && url_ok(config.google.redirect_url@),
        (r matches Ok(c) ==> c.client_id == config.google_client_id && c.client_secret
            == config.google_client_secret && c.auth_url == config.google.auth_url && c.token_url
            == config.google.token_url && c.redirect_url == config.google.redirect_url),
        (r matches Err(e) ==> e == AuthError::InvalidConfig),
{
    if !url_is_wellformed(config.google.auth_url.as_str()) {
        return Err(AuthError::InvalidConfig);
    }
    if !url_is_wellformed(config.google.token_url.as_str()) {
        return Err(AuthError::InvalidConfig);
    }
    if !url_is_wellformed(config.google.redirect_url.as_str()) {
        return Err(AuthError::InvalidConfig);
    }
    Ok(OAuthClient {
        client_id: config.google_client_id.clone(),
        client_secret: config.google_client_secret.clone(),
        auth_url: config.google.auth_url.clone(),
        token_url: config.google.token_url.clone(),
        redirect_url: config.google.redirect_url.clone(),
    })
}

} // verus!
