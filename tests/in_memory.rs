use turbopump::session::Session;
use turbopump::store::error::SessionStoreError;
use turbopump::store::in_memory::{shard_of, InMemory, SHARDS};
use turbopump::store::SessionStore;
use turbopump::SessionId;

#[derive(Clone, Default)]
struct SessionData {
    dummy: usize,
}

#[derive(Clone, Default)]
struct Counter {
    count: u32,
}

#[test]
fn creating_a_new_session_with_default_expiry() {
    let store = InMemory::<SessionData>::init();
    let session = Session::<SessionData>::new(3600);

    store.store(session.clone()).unwrap();

    let loaded_session = store.load(session.id()).unwrap().unwrap();
    assert_eq!(session.id(), loaded_session.id());
    assert!(!loaded_session.expired());
    assert!(loaded_session.is_valid());
}

#[test]
fn loading_an_expired_session_gives_a_new_one() {
    let store = InMemory::<SessionData>::init();
    let session = Session::<SessionData>::new(0);

    store.store(session.clone()).unwrap();

    let loaded_session = store.load(session.id()).unwrap();
    assert!(loaded_session.is_none());
}

#[test]
fn updating_a_session() {
    let store = InMemory::<SessionData>::init();
    let session = Session::<SessionData>::new(3600);

    store.store(session.clone()).unwrap();

    let stored_session = store.load(session.id()).unwrap().unwrap();
    stored_session.tap(|sess| {
        sess.dummy = 1000;
    });

    assert!(store.store(stored_session).is_ok());
    let loaded_session = store.load(session.id()).unwrap().unwrap();
    assert_eq!(loaded_session.tap(|sess| sess.dummy), 1000);
}

#[test]
fn extending_expiry() {
    let store = InMemory::<SessionData>::init();
    let session = Session::<SessionData>::new(3600);
    let original_expiration = session.expiration();

    store.store(session.clone()).unwrap();
    let mut stored_session = store.load(session.id()).unwrap().unwrap();
    stored_session.renew(3600);
    store.store(stored_session).unwrap();

    let loaded_expiration = store
        .load(session.id())
        .unwrap()
        .unwrap()
        .expiration();
    assert!(original_expiration != loaded_expiration);
}

#[test]
fn destroying_a_session() {
    let store = InMemory::<SessionData>::init();
    for _ in 0..3 {
        store.store(Session::<SessionData>::new(3600)).unwrap();
    }

    let session = Session::<SessionData>::new(3600);
    store.store(session.clone()).unwrap();
    assert_eq!(4, store.count());

    store.destroy(session.id()).unwrap();
    assert_eq!(3, store.count());
    assert!(store.load(session.id()).unwrap().is_none());
}

#[test]
fn clearing_store() {
    let store = InMemory::<SessionData>::init();
    for _ in 0..3 {
        store.store(Session::<SessionData>::new(3600)).unwrap();
    }

    assert_eq!(3, store.count());
    store.clear().unwrap();
    assert_eq!(0, store.count());
}

#[test]
fn tidying_store_clears_expired_sessions() {
    let store = InMemory::<SessionData>::init();
    for _ in 0..3 {
        store.store(Session::<SessionData>::new(0)).unwrap();
    }

    let session = Session::<SessionData>::new(3600);
    store.store(session.clone()).unwrap();

    assert_eq!(4, store.count());
    store.tidy().unwrap();
    assert_eq!(1, store.count());
}

#[test]
fn destroying_an_unknown_id_reports_destroy_failure() {
    let store = InMemory::<SessionData>::init();
    store.store(Session::<SessionData>::new(3600)).unwrap();
    let outcome = store.destroy(&SessionId::from("never-stored"));
    assert!(matches!(outcome, Err(SessionStoreError::DestroyFailure(_))));
    assert_eq!(1, store.count());
}

#[test]
fn destroying_twice_fails_the_second_time() {
    let store = InMemory::<SessionData>::init();
    let session = Session::<SessionData>::new(3600);
    store.store(session.clone()).unwrap();
    assert!(store.destroy(session.id()).is_ok());
    assert!(matches!(
        store.destroy(session.id()),
        Err(SessionStoreError::DestroyFailure(_))
    ));
}

#[test]
fn clear_hides_every_stored_session() {
    let store = InMemory::<SessionData>::init();
    let sessions: Vec<Session<SessionData>> = (0..5).map(|_| Session::new(3600)).collect();
    for s in &sessions {
        store.store(s.clone()).unwrap();
    }
    store.clear().unwrap();
    for s in &sessions {
        assert!(store.load(s.id()).unwrap().is_none());
    }
}

#[test]
fn tidy_keeps_valid_sessions_unchanged() {
    let store = InMemory::<SessionData>::init();
    let mut valid = Vec::new();
    for n in 0..3 {
        let s = Session::<SessionData>::new(3600);
        s.tap(|d| d.dummy = n);
        store.store(s.clone()).unwrap();
        valid.push(s);
    }
    for _ in 0..2 {
        store.store(Session::<SessionData>::new(0)).unwrap();
    }
    assert_eq!(5, store.count());
    store.tidy().unwrap();
    assert_eq!(3, store.count());
    for (n, s) in valid.iter().enumerate() {
        let loaded = store.load(s.id()).unwrap().unwrap();
        assert_eq!(s.id(), loaded.id());
        assert_eq!(s.expiration(), loaded.expiration());
        assert_eq!(n, loaded.tap(|d| d.dummy));
    }
}

#[test]
fn storing_again_overwrites_the_entry() {
    let store = InMemory::<SessionData>::init();
    let session = Session::<SessionData>::new(3600);
    store.store(session.clone()).unwrap();
    let mut renewed = session.clone();
    renewed.renew(0);
    store.store(renewed).unwrap();
    assert_eq!(1, store.count());
    assert!(store.load(session.id()).unwrap().is_none());
}

#[test]
fn clones_of_a_store_share_one_keyspace() {
    let store = InMemory::<SessionData>::init();
    let other = store.clone();
    let session = Session::<SessionData>::new(3600);
    store.store(session.clone()).unwrap();
    assert!(other.load(session.id()).unwrap().is_some());
    other.destroy(session.id()).unwrap();
    assert_eq!(0, store.count());
}

#[test]
fn count_store_load_destroy_scenario() {
    let store = InMemory::<Counter>::init();
    let session = Session::<Counter>::new(3600);
    assert_eq!(0, session.tap(|c| c.count));
    session.tap(|c| c.count = 1);
    store.store(session.clone()).unwrap();

    let loaded = store.load(session.id()).unwrap().unwrap();
    assert_eq!(1, loaded.tap(|c| c.count));
    assert!(loaded.is_valid());

    store.destroy(session.id()).unwrap();
    assert!(store.load(session.id()).unwrap().is_none());
}

#[test]
fn init_session_resumes_a_stored_session() {
    let store = InMemory::<Counter>::init();
    let session = Session::<Counter>::new(60);
    session.tap(|c| c.count = 7);
    store.store(session.clone()).unwrap();
    let resumed = turbopump::store::init_session(&store, Some(session.id()), 3600);
    assert_eq!(session.id(), resumed.id());
    assert_eq!(7, resumed.tap(|c| c.count));
    assert!(session.expiration().before(&resumed.expiration()));
}

#[test]
fn init_session_starts_fresh_for_unknown_or_expired_ids() {
    let store = InMemory::<Counter>::init();
    let unknown = SessionId::from("garbage");
    let fresh = turbopump::store::init_session(&store, Some(&unknown), 3600);
    assert_ne!(&unknown, fresh.id());
    assert_eq!(40, fresh.id().as_str().len());
    assert!(fresh.is_valid());

    let expired = Session::<Counter>::new(0);
    store.store(expired.clone()).unwrap();
    let replaced = turbopump::store::init_session(&store, Some(expired.id()), 3600);
    assert_ne!(expired.id(), replaced.id());

    let anonymous = turbopump::store::init_session(&store, None, 3600);
    assert!(anonymous.is_valid());
}

#[test]
fn identifiers_are_spread_by_byte_sum() {
    assert_eq!(16, SHARDS);
    assert_eq!(0, shard_of(&SessionId::from("")));
    assert_eq!(1, shard_of(&SessionId::from("a")));
    assert_eq!(3, shard_of(&SessionId::from("ab")));
    assert_eq!(shard_of(&SessionId::from("ab")), shard_of(&SessionId::from("ba")));
    let parts: std::collections::BTreeSet<usize> = (0..64)
        .map(|_| shard_of(Session::<SessionData>::new(3600).id()))
        .collect();
    assert!(parts.len() > 1);
    assert!(parts.iter().all(|p| *p < SHARDS));
}

#[test]
fn sessions_of_every_part_are_counted_and_cleared() {
    let store = InMemory::<SessionData>::init();
    let sessions: Vec<Session<SessionData>> = (0..40).map(|_| Session::new(3600)).collect();
    for s in &sessions {
        store.store(s.clone()).unwrap();
    }
    assert_eq!(40, store.count());
    for s in &sessions {
        assert_eq!(s.id(), store.load(s.id()).unwrap().unwrap().id());
    }
    store.tidy().unwrap();
    assert_eq!(40, store.count());
    store.clear().unwrap();
    assert_eq!(0, store.count());
}
