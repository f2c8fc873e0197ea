//! Session records and the users they carry.
//!
//! A session is always in exactly one of two shapes: *pending*, holding the
//! CSRF token and PKCE verifier of a login attempt that awaits its callback,
//! or *authenticated*, holding the signed-in user. An authenticated session
//! never carries login secrets, and a pending session never carries a user.

use vstd::prelude::*;

verus! {

/// How long an authenticated session lives, in seconds: thirty days.
pub const SESSION_TTL_SECONDS: i64 = 2_592_000;

/// The profile the provider's user-info endpoint reports for the signed-in
/// account.
#[derive(Debug, Clone, PartialEq, Eq)]
pub struct GoogleUser {
    pub id: String,
    pub email: String,
    pub verified_email: bool,
    pub name: String,
    pub picture: Option<String>,
}

/// An application user, built fresh from the provider profile on every
/// successful login. Timestamps are seconds since the Unix epoch; `id` is
/// assigned by a persistence layer and absent before any insert.
#[derive(Debug, Clone, PartialEq, Eq)]
pub struct User {
    pub id: Option<i32>,
    pub name: Option<String>,
    pub email: String,
    pub email_verified: Option<i64>,
    pub image: Option<String>,
    pub created_at: i64,
    pub updated_at: i64,
}

/// The two lifecycle phases of a session. The PKCE verifier of a pending
/// session is optional only so that a record that lost it (tampering, a
/// truncated write) stays representable and can be rejected defensively.
#[derive(Debug, Clone, PartialEq, Eq)]
pub enum SessionData {
    Pending { csrf_token: String, pkce_verifier: Option<String> },
    Authenticated { user: User },
}

/// One entry of the session store: its typed contents and an optional expiry,
/// in seconds since the Unix epoch. `None` means the store's default TTL.
#[derive(Debug, Clone, PartialEq, Eq)]
pub struct SessionRecord {
    pub data: SessionData,
    pub expiry: Option<i64>,
}

impl SessionRecord {
    /// The record still awaits its callback.
    pub open spec fn is_pending(self) -> bool {
        self.data is Pending
    }

    /// The record carries a signed-in user.
    pub open spec fn is_authenticated(self) -> bool {
        self.data is Authenticated
    }

    /// The stored CSRF token (meaningful only for a pending record).
    pub open spec fn spec_csrf(self) -> Seq<char> {
        match self.data {
            SessionData::Pending { csrf_token, .. } => csrf_token@,
            SessionData::Authenticated { .. } => Seq::empty(),
        }
    }

    /// The stored PKCE verifier, if the pending record still has one.
    pub open spec fn spec_verifier(self) -> Option<Seq<char>> {
        match self.data {
            SessionData::Pending { pkce_verifier, .. } => match pkce_verifier {
                Option::Some(v) => Option::Some(v@),
                Option::None => Option::None,
            },
            SessionData::Authenticated { .. } => Option::None,
        }
    }

    /// The stored user, if the record is authenticated.
    pub open spec fn spec_user(self) -> Option<User> {
        match self.data {
            SessionData::Authenticated { user } => Option::Some(user),
            SessionData::Pending { .. } => Option::None,
        }
    }

    /// An entry with an expiry strictly in the past is expired; one without
    /// an explicit expiry is left to the store's default TTL.
    pub open spec fn is_expired(self, now: int) -> bool {
        match self.expiry {
            Option::Some(e) => e < now,
            Option::None => false,
        }
    }
}

/// Builds the user a successful login establishes: every field comes from the
/// provider profile, `email_verified` is set to the login instant exactly when
/// the provider reports the address verified, and both timestamps are the
/// login instant.
pub fn user_from_profile(profile: &GoogleUser, now: i64) -> (u: User)
    ensures
        u.id is None,
        u.name == Some(profile.name),
        u.email == profile.email,
        u.email_verified == (if profile.verified_email {
            Some(now)
        } else {
            None::<i64>
        }),
        u.image == profile.picture,
        u.created_at == now,
        u.updated_at == now,
{
    User {
        id: None,
        name: Some(profile.name.clone()),
        email: profile.email.clone(),
        email_verified: if profile.verified_email {
            Some(now)
        } else {
            None
        },
        image: match &profile.picture {
            Some(p) => Some(p.clone()),
            None => None,
        },
        created_at: now,
        updated_at: now,
    }
}

} // verus!
