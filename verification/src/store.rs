//! The session store: an opaque key-value store from store-generated session
//! identifiers to session records.
//!
//! Identifiers are minted by the store, never by a client, and are drawn from
//! a cryptographically secure random generator, so a cookie value cannot be
//! guessed; a draw that would collide with a live entry is thrown away and
//! drawn afresh. The store does not purge expired entries by itself; callers
//! check expiry on load.

use std::collections::HashMap;
use vstd::prelude::*;

use crate::session::SessionRecord;

verus! {

broadcast use vstd::std_specs::hash::group_hash_axioms;

/// How many fresh draws a create makes before giving up. A collision in a
/// 64-bit space is freakishly rare, so a second round is all but unheard of.
const CREATE_ATTEMPTS: usize = 8;

/// Relies on `rand::random`: a uniform `u64` from the thread-local
/// cryptographically secure generator. Nothing is assumed of the value.
#[verifier::external_body]
fn random_id() -> u64 {
    rand::random::<u64>()
}

/// The server-side session store.
pub struct SessionStore {
    sessions: HashMap<u64, SessionRecord>,
}

impl View for SessionStore {
    type V = Map<u64, SessionRecord>;

    /// The abstract contents: live session identifiers and their records.
    closed spec fn view(&self) -> Map<u64, SessionRecord> {
        self.sessions@
    }
}

impl SessionStore {
    /// An empty store.
    pub fn new() -> (s: SessionStore)
        ensures
            s@ == Map::<u64, SessionRecord>::empty(),
    {
        SessionStore { sessions: HashMap::new() }
    }

    /// Inserts a fresh entry under a newly drawn random identifier and
    /// returns that identifier; `None` when every draw collided with a live
    /// entry, in which case the store is unchanged. Which identifier comes
    /// out is chance; only its freshness is promised.
    pub fn create(&mut self, record: SessionRecord) -> (r: Option<u64>)
        ensures
            match r {
                Some(id) => !old(self)@.contains_key(id) && final(self)@ == old(self)@.insert(
                    id,
                    record,
                ),
                None => final(self)@ == old(self)@,
            },
    {
        let mut attempt: usize = 0;
        let mut fresh: Option<u64> = None;
        while attempt < CREATE_ATTEMPTS && fresh.is_none()
            invariant
                attempt <= CREATE_ATTEMPTS,
                self@ == old(self)@,
                (fresh matches Some(id) ==> !self@.contains_key(id)),
            decreases CREATE_ATTEMPTS - attempt,
        {
            let id = random_id();
            if self.sessions.get(&id).is_none() {
                fresh = Some(id);
            }
            attempt = attempt + 1;
        }
        match fresh {
            Some(id) => {
                self.sessions.insert(id, record);
                Some(id)
            },
            None => None,
        }
    }

    /// Looks an entry up; expired entries are still returned, and the caller
    /// checks their expiry.
    pub fn load(&self, id: u64) -> (r: Option<&SessionRecord>)
        ensures
            match r {
                Some(rec) => self@.contains_key(id) && *rec == self@[id],
                None => !self@.contains_key(id),
            },
    {
        self.sessions.get(&id)
    }

    /// Removes an entry if it is there; destroying an unknown identifier
    /// leaves the store as it was.
    pub fn destroy(&mut self, id: u64)
        ensures
            final(self)@ == old(self)@.remove(id),
    {
        self.sessions.remove(&id);
    }

    /// How many entries are live.
    pub fn count(&self) -> (n: usize)
        ensures
            n == self@.dom().len(),
    {
        self.sessions.len()
    }
}

} // verus!
