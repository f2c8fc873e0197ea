//! The login flow: initiation, callback validation, session promotion, the
//! request-time auth gate, and logout.
//!
//! A login attempt walks one pending session through the flow: initiation
//! mints the CSRF token and PKCE verifier and stores them; the callback is
//! validated against them exactly once; on success the pending session is
//! destroyed and a fresh authenticated session is created under a new
//! identifier. The secrets are single-use: a mismatched callback consumes the
//! pending session on the spot, while a provider-side failure (token exchange
//! or profile fetch) leaves it in place so the same callback may be retried
//! once from outside — evidence of forgery is consumed, provider trouble is
//! not.
//!
//! The token exchange and the profile fetch are network calls and happen
//! outside the library, between [`begin_callback`] and [`complete_callback`];
//! their results come back as plain values.

use vstd::prelude::*;

use crate::oauth;
use crate::oauth::{authorize_url_of, url_ok, OAuthClient};
use crate::session::{SessionData, SessionRecord, User, SESSION_TTL_SECONDS};
use crate::store::SessionStore;

verus! {

/// Everything that can go wrong in the flow. The first four degrade to a
/// redirect back to login; the last four are reported as real failures.
#[derive(Debug, Clone, Copy, PartialEq, Eq, Structural)]
pub enum AuthError {
    /// The request carried no session cookie.
    MissingSession,
    /// The cookie names no live session (unknown or expired).
    SessionNotFound,
    /// The callback's `state` does not match the stored CSRF token.
    CsrfMismatch,
    /// The loaded session is in a shape the step cannot use: already
    /// authenticated, or pending without its PKCE verifier.
    CorruptSession,
    /// The provider refused or garbled the token exchange.
    TokenExchange,
    /// The provider refused or garbled the profile fetch.
    ProfileFetch,
    /// The session store could not take a new entry.
    StoreFailure,
    /// A provider endpoint in the configuration is not a valid URL.
    InvalidConfig,
}

/// The query parameters the provider sends to the callback endpoint.
#[derive(Debug, Clone)]
pub struct AuthRequest {
    pub code: String,
    pub state: String,
}

/// The graceful outcome of an authentication-flow failure: send the client
/// back to the entry point instead of surfacing an error page.
#[derive(Debug, Clone, Copy, PartialEq, Eq, Structural)]
pub struct AuthRedirect;

impl AuthRedirect {
    /// Where the redirect points.
    pub fn target(&self) -> (s: String)
        ensures
            s@ == "/"@,
    {
        "/".to_owned()
    }
}

impl From<AuthError> for AuthRedirect {
    fn from(_e: AuthError) -> (r: AuthRedirect) {
        AuthRedirect
    }
}

impl vstd::std_specs::convert::FromSpecImpl<AuthError> for AuthRedirect {
    open spec fn obeys_from_spec() -> bool {
        true
    }

    open spec fn from_spec(_e: AuthError) -> AuthRedirect {
        AuthRedirect
    }
}

/// What a login initiation hands back: the new pending session's identifier
/// (the value the session cookie carries) and the provider URL to redirect
/// the client to.
#[derive(Debug, Clone)]
pub struct LoginInitiation {
    pub session_id: u64,
    pub authorize_url: String,
}

/// A validated callback, cleared for the token exchange: the pending
/// session's identifier, the provider's authorization code, and the PKCE
/// verifier minted at initiation.
#[derive(Debug, Clone)]
pub struct CallbackTicket {
    pub session_id: u64,
    pub code: String,
    pub pkce_verifier: String,
}

/// Whether a request is authenticated, and as whom. `Unauthenticated` in a
/// request-handling context becomes a redirect to login, never an error page.
#[derive(Debug, Clone, PartialEq, Eq)]
pub enum AuthOutcome {
    Authenticated(User),
    Unauthenticated,
}

/// The scopes every login asks the provider for.
pub open spec fn login_scopes() -> Seq<Seq<char>> {
    seq!["email"@, "profile"@]
}

/// What validating a callback against the store decides: the stored PKCE
/// verifier on success, the exact error otherwise.
pub open spec fn callback_outcome(
    m: Map<u64, SessionRecord>,
    cookie: Option<u64>,
    state: Seq<char>,
    now: int,
) -> Result<Seq<char>, AuthError> {
    match cookie {
        Option::None => Result::Err(AuthError::MissingSession),
        Option::Some(id) => {
            if !m.contains_key(id) {
                Result::Err(AuthError::SessionNotFound)
            } else if m[id].is_expired(now) {
                Result::Err(AuthError::SessionNotFound)
            } else if !m[id].is_pending() {
                Result::Err(AuthError::CorruptSession)
            } else if m[id].spec_csrf() != state {
                Result::Err(AuthError::CsrfMismatch)
            } else {
                match m[id].spec_verifier() {
                    Option::Some(v) => Result::Ok(v),
                    Option::None => Result::Err(AuthError::CorruptSession),
                }
            }
        },
    }
}

/// How validating a callback changes the store: a CSRF mismatch consumes the
/// pending session; every other outcome leaves the store untouched.
pub open spec fn callback_store_after(
    m: Map<u64, SessionRecord>,
    cookie: Option<u64>,
    state: Seq<char>,
    now: int,
) -> Map<u64, SessionRecord> {
    match cookie {
        Option::None => m,
        Option::Some(id) => {
            if callback_outcome(m, cookie, state, now) == Result::Err::<Seq<char>, AuthError>(
                AuthError::CsrfMismatch,
            ) {
                m.remove(id)
            } else {
                m
            }
        },
    }
}

/// The user the auth gate accepts for a request: the one in a live,
/// unexpired, authenticated session named by the cookie; nobody otherwise.
pub open spec fn auth_user(
    m: Map<u64, SessionRecord>,
    cookie: Option<u64>,
    now: int,
) -> Option<User> {
    match cookie {
        Option::None => Option::None,
        Option::Some(id) => {
            if !m.contains_key(id) {
                Option::None
            } else if m[id].is_expired(now) {
                Option::None
            } else {
                m[id].spec_user()
            }
        },
    }
}

/// How the auth gate changes the store: an expired session is destroyed on
/// sight; everything else is left untouched.
pub open spec fn auth_store_after(
    m: Map<u64, SessionRecord>,
    cookie: Option<u64>,
    now: int,
) -> Map<u64, SessionRecord> {
    match cookie {
        Option::None => m,
        Option::Some(id) => {
            if m.contains_key(id) && m[id].is_expired(now) {
                m.remove(id)
            } else {
                m
            }
        },
    }
}

/// Starts a login: mints a fresh CSRF token and PKCE verifier, stores them
/// in a new pending session without an explicit expiry, and returns the new
/// session identifier with the provider authorization URL embedding the
/// state and the verifier's challenge.
pub fn initiate_login(store: &mut SessionStore, client: &OAuthClient) -> (r: Result<
    LoginInitiation,
    AuthError,
>)
    ensures
        r == Result::Err::<LoginInitiation, AuthError>(AuthError::InvalidConfig) <==> !(url_ok(
            client.auth_url@,
        ) && url_ok(client.redirect_url@)),
        (r matches Err(e) ==> e == AuthError::InvalidConfig || e == AuthError::StoreFailure),
        (r matches Err(_) ==> final(store)@ == old(store)@),
        (r matches Ok(li) ==> ({
            let rec = final(store)@[li.session_id];
            &&& !old(store)@.contains_key(li.session_id)
            &&& final(store)@ == old(store)@.insert(li.session_id, rec)
            &&& rec.is_pending()
            &&& rec.expiry is None
            &&& rec.spec_csrf().len() == 22
            &&& (rec.spec_verifier() matches Some(v) && v.len() == 43 && li.authorize_url@
                == authorize_url_of(
                client.auth_url@,
                client.client_id@,
                client.redirect_url@,
                rec.spec_csrf(),
                v,
                login_scopes(),
            ))
        })),
{
    let csrf = oauth::fresh_csrf_token();
    let verifier = oauth::fresh_pkce_verifier();
    let mut scopes: Vec<String> = Vec::new();
    scopes.push("email".to_owned());
    scopes.push("profile".to_owned());
    proof {
        assert(scopes.deep_view() =~= login_scopes());
    }
    let url = match oauth::build_authorize_url(
        client.auth_url.as_str(),
        client.client_id.as_str(),
        client.redirect_url.as_str(),
        csrf.as_str(),
        verifier.as_str(),
        &scopes,
    ) {
        Some(u) => u,
        None => {
            return Err(AuthError::InvalidConfig);
        },
    };
    let record = SessionRecord {
        data: SessionData::Pending { csrf_token: csrf, pkce_verifier: Some(verifier) },
        expiry: None,
    };
    match store.create(record) {
        Some(id) => Ok(LoginInitiation { session_id: id, authorize_url: url }),
        None => Err(AuthError::StoreFailure),
    }
}

/// Validates a provider callback against the pending session the cookie
/// names: the session must exist and be unexpired, still pending, and carry
/// a CSRF token equal to the callback's `state` and a PKCE verifier. On a
/// CSRF mismatch the pending session is destroyed before the error is
/// returned, so the same forged callback cannot be retried; every other
/// failure leaves the store untouched. On success nothing is consumed yet —
/// the ticket carries what the token exchange needs.
pub fn begin_callback(
    store: &mut SessionStore,
    cookie: Option<u64>,
    request: &AuthRequest,
    now: i64,
) -> (r: Result<CallbackTicket, AuthError>)
    ensures
        final(store)@ == callback_store_after(old(store)@, cookie, request.state@, now as int),
        (r matches Ok(t) ==> callback_outcome(old(store)@, cookie, request.state@, now as int)
            == Result::Ok::<Seq<char>, AuthError>(t.pkce_verifier@) && t.code@ == request.code@
            && cookie == Some(t.session_id)),
        (r matches Err(e) ==> callback_outcome(old(store)@, cookie, request.state@, now as int)
            == Result::Err::<Seq<char>, AuthError>(e)),
{
    let id = match cookie {
        Some(id) => id,
        None => {
            return Err(AuthError::MissingSession);
        },
    };
    let step: Result<String, AuthError> = match store.load(id) {
        None => Err(AuthError::SessionNotFound),
        Some(rec) => {
            let expired = match rec.expiry {
                Some(e) => e < now,
                None => false,
            };
            if expired {
                Err(AuthError::SessionNotFound)
            } else {
                match &rec.data {
                    SessionData::Authenticated { .. } => Err(AuthError::CorruptSession),
                    SessionData::Pending { csrf_token, pkce_verifier } => {
                        if !csrf_token.eq(&request.state) {
                            Err(AuthError::CsrfMismatch)
                        } else {
                            match pkce_verifier {
                                None => Err(AuthError::CorruptSession),
                                Some(v) => Ok(v.clone()),
                            }
                        }
                    },
                }
            }
        },
    };
    match step {
        Ok(verifier) => Ok(
            CallbackTicket { session_id: id, code: request.code.clone(), pkce_verifier: verifier },
        ),
        Err(e) => {
            if e == AuthError::CsrfMismatch {
                store.destroy(id);
            }
            Err(e)
        },
    }
}

/// Promotes a validated login: consumes the pending session and creates a
/// brand-new authenticated session holding the user, expiring thirty days
/// from `now`, under a fresh identifier distinct from the pending one. A
/// store failure is the one case that leaves everything untouched: the
/// secrets are spent only once a live authenticated session replaces them.
pub fn complete_callback(store: &mut SessionStore, pending_id: u64, user: User, now: i64) -> (r:
    Result<u64, AuthError>)
    requires
        old(store)@.contains_key(pending_id),
        old(store)@[pending_id].is_pending(),
        now <= i64::MAX - SESSION_TTL_SECONDS,
    ensures
        (r matches Ok(new_id) ==> new_id != pending_id && !old(store)@.contains_key(new_id)
            && final(store)@ == old(store)@.remove(pending_id).insert(
            new_id,
            SessionRecord {
                data: SessionData::Authenticated { user },
                expiry: Some((now + SESSION_TTL_SECONDS) as i64),
            },
        )),
        (r matches Err(e) ==> e == AuthError::StoreFailure && final(store)@ == old(store)@),
{
    let record = SessionRecord {
        data: SessionData::Authenticated { user },
        expiry: Some(now + SESSION_TTL_SECONDS),
    };
    match store.create(record) {
        Some(new_id) => {
            store.destroy(pending_id);
            proof {
                assert(old(store)@.insert(new_id, record).remove(pending_id) =~= old(
                    store,
                )@.remove(pending_id).insert(new_id, record));
            }
            Ok(new_id)
        },
        None => Err(AuthError::StoreFailure),
    }
}

/// The request-time auth gate: returns the user of the live, unexpired,
/// authenticated session the cookie names. An expired session is destroyed
/// on sight; a missing cookie, an unknown identifier or a still-pending
/// session yield `Unauthenticated` and change nothing.
pub fn authenticate(store: &mut SessionStore, cookie: Option<u64>, now: i64) -> (r: AuthOutcome)
    ensures
        final(store)@ == auth_store_after(old(store)@, cookie, now as int),
        match r {
            AuthOutcome::Authenticated(u) => auth_user(old(store)@, cookie, now as int) == Some(u),
            AuthOutcome::Unauthenticated => auth_user(old(store)@, cookie, now as int) is None,
        },
{
    let id = match cookie {
        Some(id) => id,
        None => {
            return AuthOutcome::Unauthenticated;
        },
    };
    let (expired, user_opt): (bool, Option<User>) = match store.load(id) {
        None => (false, None),
        Some(rec) => {
            let ex = match rec.expiry {
                Some(e) => e < now,
                None => false,
            };
            if ex {
                (true, None)
            } else {
                match &rec.data {
                    SessionData::Authenticated { user } => (false, Some(copy_user(user))),
                    SessionData::Pending { .. } => (false, None),
                }
            }
        },
    };
    if expired {
        store.destroy(id);
    }
    match user_opt {
        Some(u) => AuthOutcome::Authenticated(u),
        None => AuthOutcome::Unauthenticated,
    }
}

/// Destroys the session the cookie names, if it is still there. Logging out
/// an unknown or already-destroyed identifier succeeds and changes nothing.
pub fn logout(store: &mut SessionStore, session_id: u64)
    ensures
        final(store)@ == old(store)@.remove(session_id),
{
    store.destroy(session_id);
}

fn copy_user(u: &User) -> (r: User)
    ensures
        r == *u,
{
    User {
        id: u.id,
        name: match &u.name {
            Some(n) => Some(n.clone()),
            None => None,
        },
        email: u.email.clone(),
        email_verified: u.email_verified,
        image: match &u.image {
            Some(i) => Some(i.clone()),
            None => None,
        },
        created_at: u.created_at,
        updated_at: u.updated_at,
    }
}

/// Law: a callback whose `state` does not match the pending session's stored
/// CSRF token fails with `CsrfMismatch` and consumes that pending session;
/// an identical second callback then fails with `SessionNotFound` and leaves
/// the store as the first failure left it.
pub proof fn law_csrf_mismatch_is_single_use(
    m: Map<u64, SessionRecord>,
    id: u64,
    state: Seq<char>,
    now: int,
)
    requires
        m.contains_key(id),
        m[id].is_pending(),
        !m[id].is_expired(now),
        m[id].spec_csrf() != state,
    ensures
        callback_outcome(m, Some(id), state, now) == Result::Err::<Seq<char>, AuthError>(
            AuthError::CsrfMismatch,
        ),
        callback_store_after(m, Some(id), state, now) == m.remove(id),
        callback_outcome(m.remove(id), Some(id), state, now) == Result::Err::<
            Seq<char>,
            AuthError,
        >(AuthError::SessionNotFound),
        callback_store_after(m.remove(id), Some(id), state, now) == m.remove(id),
{
}

/// Law: a callback whose `state` matches but whose pending session lost its
/// PKCE verifier fails with `CorruptSession` and changes nothing — in
/// particular, no authenticated session comes into being.
pub proof fn law_missing_verifier_is_corrupt(
    m: Map<u64, SessionRecord>,
    id: u64,
    state: Seq<char>,
    now: int,
)
    requires
        m.contains_key(id),
        m[id].is_pending(),
        !m[id].is_expired(now),
        m[id].spec_csrf() == state,
        m[id].spec_verifier() is None,
    ensures
        callback_outcome(m, Some(id), state, now) == Result::Err::<Seq<char>, AuthError>(
            AuthError::CorruptSession,
        ),
        callback_store_after(m, Some(id), state, now) == m,
{
}

/// Law: promoting the only pending entry of a store yields a store holding
/// exactly one entry — the authenticated one, under the new identifier — and
/// the old identifier is no longer live.
pub proof fn law_promotion_swaps_single_entry(
    m: Map<u64, SessionRecord>,
    id: u64,
    new_id: u64,
    rec: SessionRecord,
    arec: SessionRecord,
)
    requires
        m =~= Map::<u64, SessionRecord>::empty().insert(id, rec),
        rec.is_pending(),
        arec.is_authenticated(),
        new_id != id,
    ensures
        m.remove(id).insert(new_id, arec) =~= Map::<u64, SessionRecord>::empty().insert(
            new_id,
            arec,
        ),
        !m.remove(id).insert(new_id, arec).contains_key(id),
        m.remove(id).insert(new_id, arec).dom().len() == 1,
{
    assert(m.remove(id) =~= Map::<u64, SessionRecord>::empty());
    assert(m.remove(id).insert(new_id, arec).dom() =~= Set::<u64>::empty().insert(new_id));
}

/// Law: the auth gate rejects an expired session and removes its entry, so a
/// subsequent lookup of the same identifier finds nothing, and a repeated
/// gate check changes nothing further.
pub proof fn law_expired_session_is_removed(m: Map<u64, SessionRecord>, id: u64, now: int)
    requires
        m.contains_key(id),
        m[id].is_expired(now),
    ensures
        auth_user(m, Some(id), now) is None,
        auth_store_after(m, Some(id), now) == m.remove(id),
        !auth_store_after(m, Some(id), now).contains_key(id),
        auth_user(auth_store_after(m, Some(id), now), Some(id), now) is None,
        auth_store_after(auth_store_after(m, Some(id), now), Some(id), now) == auth_store_after(
            m,
            Some(id),
            now,
        ),
{
}

/// Law: logout is idempotent — destroying an unknown or already-destroyed
/// identifier leaves the store exactly as it was, and a repeated logout
/// changes nothing further.
pub proof fn law_logout_idempotent(m: Map<u64, SessionRecord>, id: u64)
    ensures
        !m.contains_key(id) ==> m.remove(id) =~= m,
        m.remove(id).remove(id) =~= m.remove(id),
{
}

} // verus!
