use turbopump::SessionId;

#[test]
fn session_id_round_trips_through_strings() {
    let id = SessionId::from("abc123");
    assert_eq!("abc123", id.as_str());
    assert_eq!("abc123", id.to_string());
    let s: String = id.clone().into();
    assert_eq!("abc123", s);
    assert_eq!(id, SessionId("abc123".to_string()));
}

#[test]
fn session_ids_compare_by_token() {
    assert!(SessionId::from("a") < SessionId::from("b"));
    assert_ne!(SessionId::from("a"), SessionId::from("A"));
    assert_eq!(SessionId::default(), SessionId::from(""));
}
