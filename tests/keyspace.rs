use turbopump::session::Session;
use turbopump::store::error::SessionStoreError;
use turbopump::store::keyspace::Keyspace;
use turbopump::time::Timestamp;
use turbopump::SessionId;

#[derive(Clone, Default)]
struct Data {
    value: u32,
}

fn at(secs: i64) -> Timestamp {
    Timestamp { secs, nanos: 0 }
}

#[test]
fn load_at_sees_a_stored_session_while_valid() {
    let mut ks = Keyspace::<Data>::new();
    let s = Session::<Data>::new_at(100, at(1_000));
    s.tap(|d| d.value = 42);
    ks.store(s.clone());
    let loaded = ks.load_at(s.id(), at(1_050)).unwrap();
    assert_eq!(s.id(), loaded.id());
    assert_eq!(42, loaded.tap(|d| d.value));
    assert!(ks.load_at(s.id(), at(1_100)).is_none());
    assert_eq!(1, ks.len());
}

#[test]
fn load_at_of_an_unknown_id_is_none() {
    let ks = Keyspace::<Data>::new();
    assert!(ks.load_at(&SessionId::from("nope"), at(0)).is_none());
}

#[test]
fn store_replaces_by_id() {
    let mut ks = Keyspace::<Data>::new();
    let s = Session::<Data>::new_at(100, at(1_000));
    ks.store(s.clone());
    let mut later = s.clone();
    later.renew_at(100, at(2_000));
    ks.store(later);
    assert_eq!(1, ks.len());
    let loaded = ks.load_at(s.id(), at(2_050)).unwrap();
    assert_eq!(at(2_100), loaded.expiration());
}

#[test]
fn destroy_reports_unknown_ids() {
    let mut ks = Keyspace::<Data>::new();
    let s = Session::<Data>::new_at(100, at(0));
    ks.store(s.clone());
    assert!(matches!(
        ks.destroy(&SessionId::from("missing")),
        Err(SessionStoreError::DestroyFailure(_))
    ));
    assert_eq!(1, ks.len());
    assert!(ks.destroy(s.id()).is_ok());
    assert_eq!(0, ks.len());
    assert!(ks.load_at(s.id(), at(1)).is_none());
}

#[test]
fn tidy_at_drops_exactly_the_expired() {
    let mut ks = Keyspace::<Data>::new();
    let mut kept = Vec::new();
    for n in 0..4 {
        let s = Session::<Data>::new_at(10 + n, at(0));
        ks.store(s.clone());
        kept.push(s);
    }
    for _ in 0..3 {
        ks.store(Session::<Data>::new_at(5, at(0)));
    }
    assert_eq!(7, ks.len());
    ks.tidy_at(at(5));
    assert_eq!(4, ks.len());
    for s in &kept {
        assert_eq!(s.expiration(), ks.load_at(s.id(), at(5)).unwrap().expiration());
    }
    ks.tidy_at(at(12));
    assert_eq!(1, ks.len());
}

#[test]
fn clear_empties_the_keyspace() {
    let mut ks = Keyspace::<Data>::new();
    let s = Session::<Data>::new_at(100, at(0));
    ks.store(s.clone());
    ks.clear();
    assert_eq!(0, ks.len());
    assert!(ks.load_at(s.id(), at(1)).is_none());
}
