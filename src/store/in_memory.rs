//! A process-local store shared by all the handles cloned from it.

use std::sync::Arc;
use vstd::prelude::*;
use vstd::rwlock::{RwLock, RwLockPredicate};
use vstd::utf8::encode_utf8;

use crate::session::{share, Session};
use crate::store::error::SessionStoreError;
use crate::store::keyspace::Keyspace;
use crate::store::SessionStore;
use crate::time::Timestamp;
use crate::types::SessionId;

verus! {

/// Number of parts of a store's keyspace, each behind a lock of its own.
pub const SHARDS: usize = 16;

/// The part of the keyspace that holds identifiers whose UTF-8 bytes are `b`:
/// the sum of the bytes, modulo `SHARDS`.
pub open spec fn shard_of_bytes(b: Seq<u8>) -> nat
    decreases b.len(),
{
    if b.len() == 0 {
        0
    } else {
        ((shard_of_bytes(b.drop_last()) + b.last() as nat) % (SHARDS as nat)) as nat
    }
}

/// The part of the keyspace that holds the identifier `id`.
pub open spec fn spec_shard_of(id: Seq<char>) -> nat {
    shard_of_bytes(encode_utf8(id))
}

/// The part of the keyspace that holds the session with identifier `id`.
pub fn shard_of(id: &SessionId) -> (r: usize)
    ensures
        r == spec_shard_of(id@),
        r < SHARDS,
{
    let bytes = id.as_str().as_bytes();
    let mut acc: usize = 0;
    let mut i: usize = 0;
    while i < bytes.len()
        invariant
            i <= bytes@.len(),
            bytes@ == encode_utf8(id@),
            acc == shard_of_bytes(bytes@.take(i as int)),
            acc < SHARDS,
        decreases bytes@.len() - i,
    {
        assert(bytes@.take(i + 1).drop_last() =~= bytes@.take(i as int));
        acc = (acc + bytes[i] as usize) % SHARDS;
        i = i + 1;
    }
    assert(bytes@.take(bytes@.len() as int) =~= bytes@);
    acc
}

/// What the lock of one part of an [`InMemory`] store keeps: a well-formed
/// keyspace that holds only identifiers of that part.
pub struct InShard {
    pub index: nat,
}

impl<Data> RwLockPredicate<Keyspace<Data>> for InShard {
    open spec fn inv(self, k: Keyspace<Data>) -> bool {
        &&& k.wf()
        &&& forall|id: Seq<char>| #[trigger] k@.contains_key(id) ==> spec_shard_of(id) == self.index
    }
}

/// A session store held in memory. Clones are handles on one keyspace, split
/// into `SHARDS` parts by identifier. Each operation on one identifier takes
/// the lock of that identifier's part alone and applies one keyspace
/// operation there, so operations on identifiers of other parts never wait
/// for it.
#[verifier::reject_recursive_types(Data)]
pub struct InMemory<Data> {
    shards: Arc<Vec<RwLock<Keyspace<Data>, InShard>>>,
}

impl<Data> InMemory<Data> {
    /// One lock per part, each configured for its own part.
    #[verifier::type_invariant]
    spec fn shards_in_place(self) -> bool {
        &&& self.shards@.len() == SHARDS
        &&& forall|i: int| 0 <= i < SHARDS ==> (#[trigger] self.shards@[i]).pred() == (InShard { index: i as nat })
    }
}

impl<Data> Clone for InMemory<Data> {
    /// Another handle on the same keyspace.
    fn clone(&self) -> (r: InMemory<Data>)
        ensures
            r == *self,
    {
        proof {
            use_type_invariant(self);
        }
        InMemory { shards: share(&self.shards) }
    }
}

impl<Data> InMemory<Data> {
    /// Number of sessions held, valid or not, summed over the parts (each
    /// part counted when its lock was taken); `usize::MAX` if the sum does
    /// not fit. Other handles may change the parts between two readings, so
    /// nothing is promised of the sum beyond that.
    pub fn count(&self) -> usize {
        proof {
            use_type_invariant(self);
        }
        let mut total: usize = 0;
        let mut i: usize = 0;
        while i < SHARDS
            invariant
                self.shards@.len() == SHARDS,
            decreases SHARDS - i,
        {
            let handle = self.shards[i].acquire_read();
            let n = handle.borrow().len();
            handle.release_read();
            total = if n <= usize::MAX - total {
                total + n
            } else {
                usize::MAX
            };
            i = i + 1;
        }
        total
    }
}

impl<Data: Default + Send + Sync + 'static> SessionStore for InMemory<Data> {
    type SessionData = Data;

    fn init() -> InMemory<Data> {
        let mut shards: Vec<RwLock<Keyspace<Data>, InShard>> = Vec::new();
        let mut i: usize = 0;
        while i < SHARDS
            invariant
                i <= SHARDS,
                shards@.len() == i,
                forall|j: int| 0 <= j < i ==> (#[trigger] shards@[j]).pred() == (InShard { index: j as nat }),
            decreases SHARDS - i,
        {
            let keyspace = Keyspace::new();
            shards.push(RwLock::new(keyspace, Ghost(InShard { index: i as nat })));
            i = i + 1;
        }
        InMemory { shards: Arc::new(shards) }
    }

    fn load(&self, session_id: &SessionId) -> (r: Result<Option<Session<Data>>, SessionStoreError<'static>>)
        ensures
            r is Ok,
    {
        proof {
            use_type_invariant(self);
        }
        let handle = self.shards[shard_of(session_id)].acquire_read();
        let now = Timestamp::now();
        let keyspace = handle.borrow();
        let found = keyspace.load_at(session_id, now);
        proof {
            if found is Some {
                keyspace.lemma_keyed_by_id(session_id@);
            }
        }
        handle.release_read();
        Ok(found)
    }

    fn store(&self, session: Session<Data>) -> (r: Result<(), SessionStoreError<'static>>)
        ensures
            r is Ok,
    {
        proof {
            use_type_invariant(self);
        }
        let (mut keyspace, handle) = self.shards[shard_of(session.id())].acquire_write();
        keyspace.store(session);
        handle.release_write(keyspace);
        Ok(())
    }

    fn clear(&self) -> (r: Result<(), SessionStoreError<'static>>)
        ensures
            r is Ok,
    {
        proof {
            use_type_invariant(self);
        }
        let mut i: usize = 0;
        while i < SHARDS
            invariant
                self.shards@.len() == SHARDS,
            decreases SHARDS - i,
        {
            let (mut keyspace, handle) = self.shards[i].acquire_write();
            keyspace.clear();
            handle.release_write(keyspace);
            i = i + 1;
        }
        Ok(())
    }

    fn destroy(&self, session_id: &SessionId) -> (r: Result<(), SessionStoreError<'static>>)
        ensures
            r matches Err(e) ==> e is DestroyFailure,
    {
        proof {
            use_type_invariant(self);
        }
        let (mut keyspace, handle) = self.shards[shard_of(session_id)].acquire_write();
        let r = keyspace.destroy(session_id);
        handle.release_write(keyspace);
        r
    }

    fn tidy(&self) -> (r: Result<(), SessionStoreError<'static>>)
        ensures
            r is Ok,
    {
        proof {
            use_type_invariant(self);
        }
        let mut i: usize = 0;
        while i < SHARDS
            invariant
                self.shards@.len() == SHARDS,
            decreases SHARDS - i,
        {
            let (mut keyspace, handle) = self.shards[i].acquire_write();
            let now = Timestamp::now();
            keyspace.tidy_at(now);
            handle.release_write(keyspace);
            i = i + 1;
        }
        Ok(())
    }
}

} // verus!
