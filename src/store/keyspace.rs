//! The keyspace of a store: sessions by identifier, at most one per
//! identifier, with every operation applied as one step.

use vstd::prelude::*;

use crate::session::Session;
use crate::store::error::SessionStoreError;
use crate::time::Timestamp;
use crate::types::SessionId;

verus! {

/// The identifiers of the sessions in `s` are pairwise distinct.
pub open spec fn ids_distinct<Data>(s: Seq<Session<Data>>) -> bool {
    forall|i: int, j: int|
        0 <= i < j < s.len() ==> (#[trigger] s[i]).spec_id()@ != (#[trigger] s[j]).spec_id()@
}

/// The map from identifier to session that the sequence `s` holds; a later
/// entry wins over an earlier one with the same identifier.
pub open spec fn map_of<Data>(s: Seq<Session<Data>>) -> Map<Seq<char>, Session<Data>>
    decreases s.len(),
{
    if s.len() == 0 {
        Map::empty()
    } else {
        map_of(s.drop_last()).insert(s.last().spec_id()@, s.last())
    }
}

/// What a load of `id` at `now` hands out from the keyspace `m`: the session
/// stored under `id` if it is valid at `now`, and nothing otherwise.
pub open spec fn lookup<Data>(m: Map<Seq<char>, Session<Data>>, id: Seq<char>, now: Timestamp) -> Option<
    Session<Data>,
> {
    if m.contains_key(id) && m[id].valid_at(now) {
        Some(m[id])
    } else {
        None
    }
}

/// The keyspace `m` without the sessions that have expired at `now`.
pub open spec fn unexpired<Data>(m: Map<Seq<char>, Session<Data>>, now: Timestamp) -> Map<
    Seq<char>,
    Session<Data>,
> {
    Map::new(|k: Seq<char>| m.contains_key(k) && m[k].valid_at(now), |k: Seq<char>| m[k])
}

proof fn lemma_map_of_contains<Data>(s: Seq<Session<Data>>, k: Seq<char>)
    ensures
        map_of(s).contains_key(k) <==> exists|i: int| 0 <= i < s.len() && (#[trigger] s[i]).spec_id()@ == k,
    decreases s.len(),
{
    if s.len() > 0 {
        let t = s.drop_last();
        lemma_map_of_contains(t, k);
        if map_of(s).contains_key(k) {
            if k == s.last().spec_id()@ {
                assert(s[s.len() - 1].spec_id()@ == k);
            } else {
                let i = choose|i: int| 0 <= i < t.len() && (#[trigger] t[i]).spec_id()@ == k;
                assert(s[i] == t[i]);
            }
        }
        if exists|i: int| 0 <= i < s.len() && (#[trigger] s[i]).spec_id()@ == k {
            let i = choose|i: int| 0 <= i < s.len() && (#[trigger] s[i]).spec_id()@ == k;
            if i < s.len() - 1 {
                assert(t[i] == s[i]);
            }
        }
    }
}

proof fn lemma_map_of_keys<Data>(s: Seq<Session<Data>>, k: Seq<char>)
    requires
        map_of(s).contains_key(k),
    ensures
        map_of(s)[k].spec_id()@ == k,
    decreases s.len(),
{
    if s.len() > 0 && k != s.last().spec_id()@ {
        lemma_map_of_keys(s.drop_last(), k);
    }
}

proof fn lemma_map_of_index<Data>(s: Seq<Session<Data>>, i: int)
    requires
        ids_distinct(s),
        0 <= i < s.len(),
    ensures
        map_of(s).contains_key(s[i].spec_id()@),
        map_of(s)[s[i].spec_id()@] == s[i],
    decreases s.len(),
{
    let t = s.drop_last();
    if i < s.len() - 1 {
        assert(t[i] == s[i]);
        lemma_map_of_index(t, i);
    }
}

proof fn lemma_map_of_update<Data>(s: Seq<Session<Data>>, i: int, v: Session<Data>)
    requires
        ids_distinct(s),
        0 <= i < s.len(),
        v.spec_id()@ == s[i].spec_id()@,
    ensures
        map_of(s.update(i, v)) == map_of(s).insert(v.spec_id()@, v),
    decreases s.len(),
{
    let t = s.drop_last();
    let u = s.update(i, v);
    if i == s.len() - 1 {
        assert(u.drop_last() =~= t);
        assert(map_of(u) =~= map_of(s).insert(v.spec_id()@, v));
    } else {
        assert(u.drop_last() =~= t.update(i, v));
        lemma_map_of_update(t, i, v);
        assert(s[s.len() - 1].spec_id()@ != s[i].spec_id()@);
        assert(map_of(u) =~= map_of(s).insert(v.spec_id()@, v));
    }
}

proof fn lemma_map_of_remove<Data>(s: Seq<Session<Data>>, i: int)
    requires
        ids_distinct(s),
        0 <= i < s.len(),
    ensures
        map_of(s.remove(i)) == map_of(s).remove(s[i].spec_id()@),
    decreases s.len(),
{
    let t = s.drop_last();
    let k = s[i].spec_id()@;
    if i == s.len() - 1 {
        assert(s.remove(i) =~= t);
        lemma_map_of_contains(t, k);
        assert forall|j: int| 0 <= j < t.len() implies (#[trigger] t[j]).spec_id()@ != k by {
            assert(t[j] == s[j]);
        }
        assert(map_of(s.remove(i)) =~= map_of(s).remove(k));
    } else {
        let r = s.remove(i);
        assert(r.drop_last() =~= t.remove(i));
        assert(r.last() == s.last());
        lemma_map_of_remove(t, i);
        assert(t[i] == s[i]);
        assert(s[s.len() - 1].spec_id()@ != k);
        assert(map_of(r) =~= map_of(s).remove(k));
    }
}

proof fn lemma_map_of_len<Data>(s: Seq<Session<Data>>)
    requires
        ids_distinct(s),
    ensures
        map_of(s).dom().finite(),
        map_of(s).len() == s.len(),
    decreases s.len(),
{
    if s.len() > 0 {
        let t = s.drop_last();
        let k = s.last().spec_id()@;
        lemma_map_of_len(t);
        lemma_map_of_contains(t, k);
        assert forall|j: int| 0 <= j < t.len() implies (#[trigger] t[j]).spec_id()@ != k by {
            assert(t[j] == s[j]);
        }
    }
}

/// A session stored while it is valid is handed back by a load of its
/// identifier: the same session, with the same identifier and the same data.
pub proof fn lemma_store_then_load<Data>(ks: Keyspace<Data>, s: Session<Data>, now: Timestamp)
    requires
        s.valid_at(now),
    ensures
        lookup(ks@.insert(s.spec_id()@, s), s.spec_id()@, now) == Some(s),
{
}

/// A session that has expired is never handed back by a load of its
/// identifier, even right after it was stored.
pub proof fn lemma_expired_not_loaded<Data>(ks: Keyspace<Data>, s: Session<Data>, now: Timestamp)
    requires
        !s.valid_at(now),
    ensures
        lookup(ks@.insert(s.spec_id()@, s), s.spec_id()@, now) is None,
{
}

/// A session created with lifespan zero is never handed back by a load, at
/// its creation or any time after.
pub proof fn lemma_zero_lifespan_not_loaded<Data>(
    ks: Keyspace<Data>,
    s: Session<Data>,
    created: Timestamp,
    now: Timestamp,
)
    requires
        created.wf(),
        s.spec_expiration() == created.spec_after_secs(0),
        !now.spec_before(created),
    ensures
        lookup(ks@.insert(s.spec_id()@, s), s.spec_id()@, now) is None,
{
}

/// Destroying a session just stored succeeds, and a load of its identifier
/// afterwards finds nothing.
pub proof fn lemma_destroy_after_store<Data>(ks: Keyspace<Data>, s: Session<Data>, now: Timestamp)
    ensures
        ks@.insert(s.spec_id()@, s).contains_key(s.spec_id()@),
        lookup(ks@.insert(s.spec_id()@, s).remove(s.spec_id()@), s.spec_id()@, now) is None,
{
}

/// After a clear, a load of any identifier finds nothing.
pub proof fn lemma_clear_then_load<Data>(id: Seq<char>, now: Timestamp)
    ensures
        lookup(Map::<Seq<char>, Session<Data>>::empty(), id, now) is None,
{
}

/// A sweep at `now` keeps exactly the sessions valid at `now`, each
/// unchanged, so every load at `now` gives what it gave before the sweep.
pub proof fn lemma_tidy_keeps_valid<Data>(ks: Keyspace<Data>, now: Timestamp)
    ensures
        unexpired(ks@, now).dom() == ks@.dom().filter(|k: Seq<char>| ks@[k].valid_at(now)),
        forall|k: Seq<char>| #[trigger]
            unexpired(ks@, now).contains_key(k) ==> unexpired(ks@, now)[k] == ks@[k],
        forall|k: Seq<char>| #[trigger] lookup(unexpired(ks@, now), k, now) == lookup(ks@, k, now),
{
    assert(unexpired(ks@, now).dom() =~= ks@.dom().filter(|k: Seq<char>| ks@[k].valid_at(now)));
}

/// The sessions of one store, at most one per identifier.
#[verifier::reject_recursive_types(Data)]
pub struct Keyspace<Data> {
    sessions: Vec<Session<Data>>,
}

impl<Data> View for Keyspace<Data> {
    type V = Map<Seq<char>, Session<Data>>;

    closed spec fn view(&self) -> Map<Seq<char>, Session<Data>> {
        map_of(self.sessions@)
    }
}

impl<Data> Keyspace<Data> {
    /// At most one session per identifier.
    pub closed spec fn wf(&self) -> bool {
        ids_distinct(self.sessions@)
    }

    /// Each session is stored under its own identifier.
    pub proof fn lemma_keyed_by_id(&self, id: Seq<char>)
        requires
            self@.contains_key(id),
        ensures
            self@[id].spec_id()@ == id,
    {
        lemma_map_of_keys(self.sessions@, id);
    }

    /// An empty keyspace.
    pub fn new() -> (r: Keyspace<Data>)
        ensures
            r.wf(),
            r@ == Map::<Seq<char>, Session<Data>>::empty(),
    {
        Keyspace { sessions: Vec::new() }
    }

    /// Where the session with identifier `id` stands, if there is one.
    fn position(&self, id: &SessionId) -> (r: Option<usize>)
        ensures
            r matches Some(i) ==> i < self.sessions@.len() && self.sessions@[i as int].spec_id()@ == id@,
            r is None ==> forall|i: int|
                0 <= i < self.sessions@.len() ==> (#[trigger] self.sessions@[i]).spec_id()@ != id@,
    {
        let mut i: usize = 0;
        while i < self.sessions.len()
            invariant
                i <= self.sessions@.len(),
                forall|j: int| 0 <= j < i ==> (#[trigger] self.sessions@[j]).spec_id()@ != id@,
            decreases self.sessions@.len() - i,
        {
            if self.sessions[i].id().0 == id.0 {
                return Some(i);
            }
            i = i + 1;
        }
        None
    }

    /// A handle on the session stored under `id` if it is valid at `now`;
    /// nothing if there is none or it has expired.
    pub fn load_at(&self, id: &SessionId, now: Timestamp) -> (r: Option<Session<Data>>)
        requires
            self.wf(),
        ensures
            r == lookup(self@, id@, now),
    {
        proof {
            lemma_map_of_contains(self.sessions@, id@);
        }
        match self.position(id) {
            Some(i) => {
                proof {
                    lemma_map_of_index(self.sessions@, i as int);
                }
                self.sessions[i].clone().validate_at(now)
            },
            None => None,
        }
    }

    /// Puts `session` under its identifier, replacing any session stored
    /// there before.
    pub fn store(&mut self, session: Session<Data>)
        requires
            old(self).wf(),
        ensures
            final(self).wf(),
            final(self)@ == old(self)@.insert(session.spec_id()@, session),
    {
        match self.position(session.id()) {
            Some(i) => {
                proof {
                    lemma_map_of_update(self.sessions@, i as int, session);
                }
                self.sessions.set(i, session);
            },
            None => {
                let ghost before = self.sessions@;
                self.sessions.push(session);
                assert(self.sessions@.drop_last() =~= before);
            },
        }
    }

    /// Removes every session, valid or not.
    pub fn clear(&mut self)
        ensures
            final(self).wf(),
            final(self)@ == Map::<Seq<char>, Session<Data>>::empty(),
    {
        self.sessions.clear();
    }

    /// Removes the session stored under `id`. Reports `DestroyFailure`, and
    /// changes nothing, when there is none.
    pub fn destroy(&mut self, id: &SessionId) -> (r: Result<(), SessionStoreError<'static>>)
        requires
            old(self).wf(),
        ensures
            final(self).wf(),
            r is Ok <==> old(self)@.contains_key(id@),
            r matches Err(e) ==> e is DestroyFailure,
            final(self)@ == old(self)@.remove(id@),
    {
        proof {
            lemma_map_of_contains(self.sessions@, id@);
        }
        match self.position(id) {
            Some(i) => {
                proof {
                    lemma_map_of_remove(self.sessions@, i as int);
                }
                self.sessions.remove(i);
                Ok(())
            },
            None => {
                assert(self@.remove(id@) =~= self@);
                Err(SessionStoreError::DestroyFailure("unable to destroy session"))
            },
        }
    }

    /// Removes every session that has expired at `now` and keeps the others
    /// as they are.
    pub fn tidy_at(&mut self, now: Timestamp)
        requires
            old(self).wf(),
        ensures
            final(self).wf(),
            final(self)@ == unexpired(old(self)@, now),
    {
        let ghost before = self.sessions@;
        let mut kept: Vec<Session<Data>> = Vec::new();
        let mut i: usize = 0;
        while i < self.sessions.len()
            invariant
                self.sessions@ == before,
                ids_distinct(before),
                i <= before.len(),
                ids_distinct(kept@),
                forall|j: int|
                    0 <= j < kept@.len() ==> exists|m: int|
                        0 <= m < i && (#[trigger] kept@[j]).spec_id()@ == (#[trigger] before[m]).spec_id()@,
                map_of(kept@) == unexpired(map_of(before.take(i as int)), now),
            decreases before.len() - i,
        {
            let s = &self.sessions[i];
            let ghost prefix = before.take(i as int);
            assert(before.take(i + 1).drop_last() =~= prefix);
            proof {
                lemma_map_of_contains(prefix, s.spec_id()@);
                assert forall|m: int| 0 <= m < prefix.len() implies (#[trigger] prefix[m]).spec_id()@ != s.spec_id()@ by {
                    assert(prefix[m] == before[m]);
                }
            }
            if s.is_valid_at(now) {
                let ghost old_kept = kept@;
                kept.push(s.clone());
                assert(kept@.drop_last() =~= old_kept);
                assert(map_of(kept@) =~= unexpired(map_of(before.take(i + 1)), now));
            } else {
                assert(map_of(kept@) =~= unexpired(map_of(before.take(i + 1)), now));
            }
            i = i + 1;
        }
        assert(before.take(before.len() as int) =~= before);
        self.sessions = kept;
    }

    /// Number of sessions held, valid or not.
    pub fn len(&self) -> (r: usize)
        requires
            self.wf(),
        ensures
            r == self@.len(),
    {
        proof {
            lemma_map_of_len(self.sessions@);
        }
        self.sessions.len()
    }
}

} // verus!
