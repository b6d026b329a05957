use slovo::server::{build_ws_url, default_poll_secs, default_timeout_secs, normalize_host, platforms_started, WsUrlError};

#[test]
fn defaults_match_the_documented_values() {
    assert_eq!(default_timeout_secs(), 5);
    assert_eq!(default_poll_secs(), 3);
}

#[test]
fn wildcard_ipv4_becomes_localhost_keeping_port() {
    assert_eq!(normalize_host("0.0.0.0:8080"), "localhost:8080");
}

#[test]
fn wildcard_ipv4_without_port() {
    assert_eq!(normalize_host("0.0.0.0"), "localhost");
}

#[test]
fn bracketed_ipv6_wildcard_with_port() {
    assert_eq!(normalize_host("[::]:8080"), "localhost:8080");
}

#[test]
fn bare_ipv6_wildcard() {
    assert_eq!(normalize_host("::"), "localhost");
}

#[test]
fn bare_ipv6_address_is_not_split() {
    assert_eq!(normalize_host("fe80::1"), "fe80::1");
}

#[test]
fn plain_host_is_kept() {
    assert_eq!(normalize_host("example.com:443"), "example.com:443");
    assert_eq!(normalize_host("localhost"), "localhost");
    assert_eq!(normalize_host("[::1]:9000"), "[::1]:9000");
}

#[test]
fn empty_port_is_kept() {
    assert_eq!(normalize_host("0.0.0.0:"), "localhost:");
}

#[test]
fn normalizing_twice_changes_nothing() {
    for h in ["0.0.0.0:8080", "[::]:1", "::", "a:b:c", "localhost:1", ""] {
        let once = normalize_host(h);
        assert_eq!(normalize_host(&once), once);
    }
}

#[test]
fn ws_url_for_http_request() {
    assert_eq!(
        build_ws_url(Some("0.0.0.0:8080"), "http", "abc").unwrap(),
        "ws://localhost:8080/ws/abc"
    );
}

#[test]
fn ws_url_for_https_request() {
    assert_eq!(
        build_ws_url(Some("example.com"), "https", "id-1").unwrap(),
        "wss://example.com/ws/id-1"
    );
}

#[test]
fn ws_url_without_host_is_refused() {
    assert_eq!(build_ws_url(None, "http", "abc"), Err(WsUrlError::MissingHost));
}

#[test]
fn reply_flags_follow_started_clients() {
    assert_eq!(platforms_started(&Some(1u8), &None::<u8>, &Some("vk")), (true, false, true));
    assert_eq!(platforms_started(&None::<u8>, &Some(2u8), &None::<&str>), (false, true, false));
}
