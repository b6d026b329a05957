use slovo::server::WsUrlError;
use slovo::session::SessionRegistry;

#[test]
fn opened_session_is_found_until_closed() {
    let mut reg: SessionRegistry<u32> = SessionRegistry::new();
    let (id, url) = reg.open_session(Some("localhost:8080"), "http", 7).unwrap();
    assert_eq!(id.len(), 36);
    assert_eq!(url, format!("ws://localhost:8080/ws/{id}"));
    assert_eq!(reg.get(&id), Some(&7));
    // connecting does not remove the session
    assert_eq!(reg.get(&id), Some(&7));
    assert_eq!(reg.remove(&id), Some(7));
    assert_eq!(reg.get(&id), None);
    assert_eq!(reg.remove(&id), None);
}

#[test]
fn request_without_host_opens_no_session() {
    let mut reg: SessionRegistry<u32> = SessionRegistry::new();
    assert_eq!(reg.open_session(None, "http", 1), Err(WsUrlError::MissingHost));
    reg.insert("x".to_string(), 2);
    assert_eq!(reg.get("x"), Some(&2));
}

#[test]
fn sessions_are_isolated() {
    let mut reg: SessionRegistry<&str> = SessionRegistry::new();
    reg.insert("a".to_string(), "first");
    reg.insert("b".to_string(), "second");
    reg.insert("a".to_string(), "third");
    assert_eq!(reg.get("a"), Some(&"third"));
    assert_eq!(reg.get("b"), Some(&"second"));
    assert_eq!(reg.remove("a"), Some("third"));
    assert_eq!(reg.get("b"), Some(&"second"));
    assert_eq!(reg.get("c"), None);
}

#[test]
fn session_ids_differ() {
    let mut reg: SessionRegistry<u8> = SessionRegistry::new();
    let (a, _) = reg.open_session(Some("h"), "http", 1).unwrap();
    let (b, _) = reg.open_session(Some("h"), "http", 2).unwrap();
    assert_ne!(a, b);
    for id in [&a, &b] {
        let chars: Vec<char> = id.chars().collect();
        assert_eq!(chars[8], '-');
        assert_eq!(chars[13], '-');
        assert_eq!(chars[18], '-');
        assert_eq!(chars[23], '-');
    }
}
