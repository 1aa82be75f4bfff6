//! The session entity: identity, expiration, and caller-defined data that
//! stays mutable while shared.

use std::sync::Arc;
use vstd::prelude::*;
use vstd::rwlock::{RwLock, RwLockPredicate};

use crate::time::{secs_in_range, Timestamp};
use crate::types::SessionId;
use crate::util::{is_token_char, random_string, TOKEN_LEN};

verus! {

/// What the lock of a session's data keeps: any value of the data.
pub struct AnyData;

impl<Data> RwLockPredicate<Data> for AnyData {
    open spec fn inv(self, d: Data) -> bool {
        true
    }
}

/// Relies on `Arc::clone`: a new pointer to the same allocation, so the
/// clone stands for the same value.
#[verifier::external_body]
pub(crate) fn share<T>(a: &Arc<T>) -> (r: Arc<T>)
    ensures
        r == *a,
{
    Arc::clone(a)
}

/// The unit of per-client state.
///
/// A session is valid while the current instant comes before its
/// expiration; validity is computed on each question, never stored. Clones
/// share one lock-protected data cell, so a change made through any handle is
/// seen through all of them.
#[verifier::reject_recursive_types(Data)]
pub struct Session<Data> {
    id: SessionId,
    inner_data: Arc<RwLock<Data, AnyData>>,
    expiration: Timestamp,
}

/// Name of the cookie that carries the session identifier.
pub const COOKIE_NAME: &'static str = "session_id";

impl<Data> Session<Data> {
    /// The identifier, fixed when the session was created.
    pub closed spec fn spec_id(self) -> SessionId {
        self.id
    }

    /// The instant from which the session is no longer valid.
    pub closed spec fn spec_expiration(self) -> Timestamp {
        self.expiration
    }

    /// The same session (same id, same data cell) with another expiration.
    pub closed spec fn spec_with_expiration(self, expiration: Timestamp) -> Session<Data> {
        Session { expiration, ..self }
    }

    /// The session is valid at `now`: `now` comes before its expiration.
    pub open spec fn valid_at(self, now: Timestamp) -> bool {
        now.spec_before(self.spec_expiration())
    }

    /// A session with a fresh random identifier and default data that expires
    /// `lifespan` seconds after `now`. A lifespan that would leave the
    /// representable range of instants expires it at `now`.
    pub fn new_at(lifespan: i64, now: Timestamp) -> (r: Session<Data>)
        where
            Data: Default,
        requires
            now.wf(),
        ensures
            r.spec_id()@.len() == TOKEN_LEN,
            forall|i: int| 0 <= i < TOKEN_LEN ==> is_token_char(#[trigger] r.spec_id()@[i]),
            r.spec_expiration() == now.spec_after_secs(lifespan),
    {
        Session {
            id: SessionId(random_string()),
            inner_data: Arc::new(RwLock::new(Data::default(), Ghost(AnyData))),
            expiration: now.after_secs(lifespan),
        }
    }

    /// A session with a fresh random identifier and default data that expires
    /// `lifespan` seconds from the current instant.
    pub fn new(lifespan: i64) -> (r: Session<Data>)
        where
            Data: Default,
        ensures
            r.spec_id()@.len() == TOKEN_LEN,
            forall|i: int| 0 <= i < TOKEN_LEN ==> is_token_char(#[trigger] r.spec_id()@[i]),
            exists|now: Timestamp| now.wf() && r.spec_expiration() == now.spec_after_secs(lifespan),
    {
        let now = Timestamp::now();
        Self::new_at(lifespan, now)
    }

    /// The session to carry on with at `now`: `loaded`, renewed to expire
    /// `lifespan` seconds after `now`, when there is one; otherwise a fresh
    /// session with that lifespan.
    pub fn resume_at(loaded: Option<Session<Data>>, lifespan: i64, now: Timestamp) -> (r: Session<
        Data,
    >)
        where
            Data: Default,
        requires
            now.wf(),
        ensures
            r.spec_expiration() == now.spec_after_secs(lifespan),
            loaded matches Some(s) ==> r == s.spec_with_expiration(now.spec_after_secs(lifespan))
                && r.spec_id() == s.spec_id(),
            loaded is None ==> r.spec_id()@.len() == TOKEN_LEN && forall|i: int|
                0 <= i < TOKEN_LEN ==> is_token_char(#[trigger] r.spec_id()@[i]),
    {
        match loaded {
            Some(mut s) => {
                s.renew_at(lifespan, now);
                s
            },
            None => Self::new_at(lifespan, now),
        }
    }

    /// The session's identifier.
    pub fn id(&self) -> (r: &SessionId)
        ensures
            *r == self.spec_id(),
    {
        &self.id
    }

    /// The cookie name and the identifier to store under it.
    pub fn cookie_value(&self) -> (r: (&str, &SessionId))
        ensures
            r.0@ == COOKIE_NAME@,
            *r.1 == self.spec_id(),
    {
        (COOKIE_NAME, &self.id)
    }

    /// Moves the expiration to `lifespan` seconds after `now` (or to `now`
    /// where that instant cannot be represented).
    pub fn renew_at(&mut self, lifespan: i64, now: Timestamp)
        requires
            now.wf(),
        ensures
            *final(self) == old(self).spec_with_expiration(now.spec_after_secs(lifespan)),
            final(self).spec_id() == old(self).spec_id(),
            final(self).spec_expiration() == now.spec_after_secs(lifespan),
    {
        self.expiration = now.after_secs(lifespan);
    }

    /// Moves the expiration to `lifespan` seconds from the current instant:
    /// a sliding session lifetime.
    pub fn renew(&mut self, lifespan: i64)
        ensures
            exists|now: Timestamp|
                now.wf() && *final(self) == old(self).spec_with_expiration(
                    now.spec_after_secs(lifespan),
                ) && final(self).spec_expiration() == now.spec_after_secs(lifespan),
            final(self).spec_id() == old(self).spec_id(),
    {
        let now = Timestamp::now();
        self.renew_at(lifespan, now);
    }

    /// The instant from which the session is no longer valid.
    pub fn expiration(&self) -> (r: Timestamp)
        ensures
            r == self.spec_expiration(),
    {
        self.expiration
    }

    /// Whether the session has expired at `now`.
    pub fn expired_at(&self, now: Timestamp) -> (r: bool)
        ensures
            r == !self.valid_at(now),
    {
        !now.before(&self.expiration)
    }

    /// Whether the session has expired at the current instant.
    pub fn expired(&self) -> (r: bool)
        ensures
            exists|now: Timestamp| now.wf() && r == !self.valid_at(now),
    {
        let now = Timestamp::now();
        self.expired_at(now)
    }

    /// Whether the session is still valid at `now`.
    pub fn is_valid_at(&self, now: Timestamp) -> (r: bool)
        ensures
            r == self.valid_at(now),
    {
        !self.expired_at(now)
    }

    /// Whether the session is still valid at the current instant.
    pub fn is_valid(&self) -> (r: bool)
        ensures
            exists|now: Timestamp| now.wf() && r == self.valid_at(now),
    {
        let now = Timestamp::now();
        self.is_valid_at(now)
    }

    /// The session itself while it is valid at `now`, nothing once it has
    /// expired.
    pub fn validate_at(self, now: Timestamp) -> (r: Option<Session<Data>>)
        ensures
            r == (if self.valid_at(now) {
                Some(self)
            } else {
                None
            }),
    {
        if self.is_valid_at(now) {
            Some(self)
        } else {
            None
        }
    }

    /// The session itself while it is valid at the current instant, nothing
    /// once it has expired.
    pub fn validate(self) -> (r: Option<Session<Data>>)
        ensures
            exists|now: Timestamp|
                now.wf() && r == (if self.valid_at(now) {
                    Some(self)
                } else {
                    None
                }),
    {
        let now = Timestamp::now();
        self.validate_at(now)
    }

    /// Applies `f` to the data under an exclusive lock and returns what `f`
    /// returns. Concurrent calls on handles of one session run one after the
    /// other. A call of `tap` on the same session from inside `f` waits for a
    /// lock that is never released, and so does every later call once `f`
    /// has panicked.
    pub fn tap<T>(&self, f: impl FnOnce(&mut Data) -> T) -> (r: T)
        requires
            forall|d: &mut Data| call_requires(f, (d,)),
        ensures
            exists|d: &mut Data| call_ensures(f, (d,), r),
    {
        let (mut data, handle) = self.inner_data.acquire_write();
        let r = f(&mut data);
        handle.release_write(data);
        r
    }
}

/// A session created with a positive lifespan is valid at the instant it was
/// created, and has expired at every instant more than that lifespan later
/// (where its expiration is representable).
pub proof fn lemma_new_session_lifetime<Data>(
    s: Session<Data>,
    lifespan: i64,
    created: Timestamp,
    later: Timestamp,
)
    requires
        created.wf(),
        lifespan > 0,
        secs_in_range(created.secs + lifespan),
        s.spec_expiration() == created.spec_after_secs(lifespan),
    ensures
        s.valid_at(created),
        later.secs > created.secs + lifespan ==> !s.valid_at(later),
{
}

/// Renewing a session at a later instant with a positive lifespan no
/// shorter than the one it was created (or last renewed) with moves its
/// expiration strictly forward (where the new expiration is representable).
pub proof fn lemma_renew_extends<Data>(
    s: Session<Data>,
    earlier: i64,
    lifespan: i64,
    created: Timestamp,
    now: Timestamp,
)
    requires
        created.wf(),
        now.wf(),
        lifespan > 0,
        earlier <= lifespan,
        s.spec_expiration() == created.spec_after_secs(earlier),
        created.spec_before(now),
        secs_in_range(now.secs + lifespan),
    ensures
        s.spec_expiration().spec_before(now.spec_after_secs(lifespan)),
{
}

impl<Data> Clone for Session<Data> {
    /// A second handle on the same session: same id, same expiration, and the
    /// same shared data cell.
    fn clone(&self) -> (r: Session<Data>)
        ensures
            r == *self,
    {
        Session { id: self.id.clone(), inner_data: share(&self.inner_data), expiration: self.expiration }
    }
}

impl<Data: Default> Default for Session<Data> {
    /// An empty identifier, default data, and an expiration at the current
    /// instant: a placeholder that is never valid.
    fn default() -> (r: Session<Data>)
        ensures
            r.spec_id()@.len() == 0,
            r.spec_expiration().wf(),
    {
        Session {
            id: SessionId(String::new()),
            inner_data: Arc::new(RwLock::new(Data::default(), Ghost(AnyData))),
            expiration: Timestamp::now(),
        }
    }
}

} // verus!
