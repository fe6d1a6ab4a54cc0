use xylex_hash_router::router::{check_trade_hash, lookup_result, registration_result, store_failure};
use xylex_hash_router::{lookup_by_trade_hash, register, DiscordMessage, Errors, MemoryStore, StoreError};

#[test]
fn second_record_with_same_hash_is_refused() {
    let mut store = MemoryStore::new();
    let first = register(&mut store, 1, 10, 100, "tx".to_string());
    assert_eq!(first.unwrap(), "tx");
    let second = register(&mut store, 2, 10, 100, "tx".to_string());
    assert_eq!(second.unwrap_err().error, Errors::TradeHashAlreadyRouted);
    assert_eq!(store.len(), 1);
    let found = lookup_by_trade_hash(&store, "tx").unwrap();
    assert_eq!(found.len(), 1);
    assert_eq!(found[0].message_id, 1);
}

#[test]
fn registered_record_is_found_by_its_hash() {
    let mut store = MemoryStore::new();
    register(&mut store, 7, 8, 9, "other".to_string()).unwrap();
    let echoed = register(&mut store, 11, 22, 33, "abc123".to_string()).unwrap();
    assert_eq!(echoed, "abc123");
    let found = lookup_by_trade_hash(&store, "abc123").unwrap();
    assert_eq!(found.len(), 1);
    assert_eq!(found[0].message_id, 11);
    assert_eq!(found[0].channel_id, 22);
    assert_eq!(found[0].guild_id, 33);
    assert_eq!(found[0].trade_hash, "abc123");
}

#[test]
fn unknown_hash_on_empty_store_is_not_found() {
    let store = MemoryStore::new();
    let e = lookup_by_trade_hash(&store, "nonexistent").unwrap_err();
    assert_eq!(e.error, Errors::TradeHashNotFound);
    assert!(e.cause.is_none());
}

#[test]
fn empty_hash_is_refused_without_a_write() {
    let mut store = MemoryStore::new();
    let e = register(&mut store, 1, 2, 3, String::new()).unwrap_err();
    assert_eq!(e.error, Errors::TradeHashInvalid);
    assert_eq!(store.write_attempts(), 0);
    assert_eq!(store.len(), 0);
}

#[test]
fn empty_hash_lookup_is_invalid() {
    let store = MemoryStore::new();
    assert_eq!(lookup_by_trade_hash(&store, "").unwrap_err().error, Errors::TradeHashInvalid);
}

#[test]
fn racing_registrations_let_exactly_one_through() {
    for first_is_a in [true, false] {
        let mut store = MemoryStore::new();
        let (m1, m2) = if first_is_a { (100, 200) } else { (200, 100) };
        let r1 = register(&mut store, m1, 5, 6, "race".to_string());
        let r2 = register(&mut store, m2, 5, 6, "race".to_string());
        assert!(r1.is_ok());
        assert_eq!(r2.unwrap_err().error, Errors::TradeHashAlreadyRouted);
        assert_eq!(store.write_attempts(), 2);
        let found = lookup_by_trade_hash(&store, "race").unwrap();
        assert_eq!(found.len(), 1);
        assert_eq!(found[0].message_id, m1);
    }
}

#[test]
fn message_already_routed_is_refused() {
    let mut store = MemoryStore::new();
    register(&mut store, 1, 2, 3, "a".to_string()).unwrap();
    let e = register(&mut store, 1, 2, 3, "b".to_string()).unwrap_err();
    assert_eq!(e.error, Errors::TradeHashAlreadyRouted);
    assert_eq!(lookup_by_trade_hash(&store, "b").unwrap_err().error, Errors::TradeHashNotFound);
}

#[test]
fn store_finds_records_in_order() {
    let mut store = MemoryStore::new();
    assert!(store.insert_if_unique(DiscordMessage::new(1, 1, 1, "x".to_string())).is_ok());
    assert!(store.insert_if_unique(DiscordMessage::new(2, 2, 2, "y".to_string())).is_ok());
    assert!(matches!(
        store.insert_if_unique(DiscordMessage::new(3, 3, 3, "x".to_string())),
        Err(StoreError::AlreadyExists)
    ));
    assert_eq!(store.write_attempts(), 3);
    let y = store.find_by_trade_hash("y");
    assert_eq!(y.len(), 1);
    assert_eq!(y[0].message_id, 2);
    assert!(store.find_by_trade_hash("z").is_empty());
}

#[test]
fn trade_hash_check() {
    assert!(check_trade_hash("h").is_ok());
    assert_eq!(check_trade_hash("").unwrap_err().error, Errors::TradeHashInvalid);
}

#[test]
fn store_failures_keep_their_cause() {
    let a = store_failure(StoreError::AlreadyExists);
    assert_eq!(a.error, Errors::TradeHashAlreadyRouted);
    assert!(a.cause.is_none());
    let t = store_failure(StoreError::TransportFailure("timeout on connect".to_string()));
    assert_eq!(t.error, Errors::StoreUnavailable);
    assert_eq!(t.cause.as_deref(), Some("timeout on connect"));
    let m = store_failure(StoreError::AmbiguousOutcome("no reply".to_string()));
    assert_eq!(m.error, Errors::AmbiguousOutcome);
    assert_eq!(m.cause.as_deref(), Some("no reply"));
}

#[test]
fn registration_result_echoes_the_hash() {
    assert_eq!(registration_result("h1".to_string(), Ok(())).unwrap(), "h1");
    let e = registration_result("h1".to_string(), Err(StoreError::TransportFailure("down".to_string()))).unwrap_err();
    assert_eq!(e.error, Errors::StoreUnavailable);
    assert_eq!(e.cause.as_deref(), Some("down"));
    let d = registration_result("h1".to_string(), Err(StoreError::AlreadyExists)).unwrap_err();
    assert_eq!(d.error, Errors::TradeHashAlreadyRouted);
}

#[test]
fn lookup_result_by_row_count() {
    assert_eq!(lookup_result(Ok(vec![])).unwrap_err().error, Errors::TradeHashNotFound);
    let one = lookup_result(Ok(vec![DiscordMessage::new(1, 2, 3, "h".to_string())])).unwrap();
    assert_eq!(one.len(), 1);
    assert_eq!(one[0].message_id, 3);
    let two = vec![
        DiscordMessage::new(1, 2, 3, "h".to_string()),
        DiscordMessage::new(4, 5, 6, "h".to_string()),
    ];
    assert_eq!(lookup_result(Ok(two)).unwrap_err().error, Errors::IntegrityViolation);
    let t = lookup_result(Err(StoreError::TransportFailure("refused".to_string()))).unwrap_err();
    assert_eq!(t.error, Errors::StoreUnavailable);
    assert_eq!(t.cause.as_deref(), Some("refused"));
}
