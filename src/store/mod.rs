//! Stores of sessions, keyed by identifier.

use vstd::prelude::*;

use crate::session::Session;
use crate::time::Timestamp;
use crate::util::{is_token_char, TOKEN_LEN};
use crate::store::error::SessionStoreError;
use crate::types::SessionId;

pub mod error;
pub mod in_memory;
pub mod keyspace;

verus! {

/// Create, read, update and delete operations, and a sweep, over a
/// collection of sessions keyed by identifier.
pub trait SessionStore: Sized + Send + Sync + 'static {
    /// The caller-defined data that each session carries.
    type SessionData;

    /// An empty store; any setup it needs is done here.
    fn init() -> Self;

    /// A handle on the session stored under `session_id` if it is still
    /// valid; nothing if there is none or it has expired.
    fn load(&self, session_id: &SessionId) -> (r: Result<Option<Session<Self::SessionData>>, SessionStoreError<'static>>)
        ensures
            r matches Ok(Some(s)) ==> s.spec_id()@ == session_id@,
            r matches Ok(Some(s)) ==> exists|now: Timestamp| now.wf() && s.valid_at(now),
    ;

    /// Puts `session` under its identifier, replacing any earlier entry.
    fn store(&self, session: Session<Self::SessionData>) -> (r: Result<(), SessionStoreError<'static>>);

    /// Removes every session, valid or not.
    fn clear(&self) -> (r: Result<(), SessionStoreError<'static>>);

    /// Removes the session stored under `session_id`; reports an error when
    /// there is none.
    fn destroy(&self, session_id: &SessionId) -> (r: Result<(), SessionStoreError<'static>>);

    /// Removes every session that has expired.
    fn tidy(&self) -> (r: Result<(), SessionStoreError<'static>>);
}

/// The session for one request: the valid session stored under
/// `session_id`, renewed to expire `lifespan` seconds from now, when there is
/// one; otherwise (no identifier, none stored, expired, or a failed load) a
/// fresh session with that lifespan.
pub fn init_session<S: SessionStore>(store: &S, session_id: Option<&SessionId>, lifespan: i64) -> (r:
    Session<S::SessionData>)
    where
        S::SessionData: Default,
    ensures
        r.spec_id()@.len() == TOKEN_LEN || (session_id matches Some(id) && r.spec_id()@ == id@),
        session_id is None ==> r.spec_id()@.len() == TOKEN_LEN && forall|i: int|
            0 <= i < TOKEN_LEN ==> is_token_char(#[trigger] r.spec_id()@[i]),
        exists|now: Timestamp| now.wf() && r.spec_expiration() == now.spec_after_secs(lifespan),
{
    let loaded = match session_id {
        Some(id) => match store.load(id) {
            Ok(found) => found,
            Err(_) => None,
        },
        None => None,
    };
    let now = Timestamp::now();
    Session::resume_at(loaded, lifespan, now)
}

} // verus!
