use std::time::Duration;

use tmcp::auth::oauth_client::{check_oauth_urls, require_https_or_loopback, OAuth2Config, OAuth2Token};
use tmcp::error::Error;
use tmcp::schema::jsonrpc::RequestId;
use tmcp::streamable_http::session::EventCounter;

#[test]
fn oauth_token_debug_redacts_secrets() {
    let token = OAuth2Token {
        access_token: "secret-access".to_string(),
        refresh_token: Some("secret-refresh".to_string()),
        expires_in: Some(Duration::from_secs(60)),
        expires_at: None,
    };

    let debug = token.debug_string();
    assert!(!debug.contains("secret-access"));
    assert!(!debug.contains("secret-refresh"));
    assert!(debug.contains("[REDACTED]"));
}

#[test]
fn event_counter_is_monotonic_and_bumps() {
    let mut counter = EventCounter::default();
    assert_eq!(counter.next(), 1);
    assert_eq!(counter.next(), 2);
    counter.bump_to(10);
    assert_eq!(counter.next(), 11);
    // Bumping backwards has no effect.
    counter.bump_to(3);
    assert_eq!(counter.next(), 12);
}

#[test]
fn test_request_id_to_key_string() {
    let id = RequestId::String("test-123".to_string());
    assert_eq!(id.to_key(), "test-123");
}

#[test]
fn test_request_id_to_key_number() {
    let id = RequestId::Number(42);
    assert_eq!(id.to_key(), "__num__42");
}

#[test]
fn test_request_id_display() {
    let string_id = RequestId::String("abc".to_string());
    assert_eq!(string_id.to_string(), "abc");

    let num_id = RequestId::Number(123);
    assert_eq!(num_id.to_string(), "123");
}

#[test]
fn new_rejects_plain_http_remote_urls() {
    let config = OAuth2Config {
        client_id: "client".to_string(),
        client_secret: None,
        auth_url: "http://auth.example.com/authorize".to_string(),
        token_url: "https://auth.example.com/token".to_string(),
        redirect_url: "http://127.0.0.1:8080/callback".to_string(),
        resource: "https://mcp.example.com".to_string(),
        scopes: vec![],
    };

    let err = check_oauth_urls(&config).unwrap_err();
    assert!(err.to_string().contains("auth URL"));
}

#[test]
fn loopback_hosts_may_use_plain_http() {
    assert!(require_https_or_loopback("https://auth.example.com/a", "auth URL").is_ok());
    assert!(require_https_or_loopback("http://127.0.0.1:9000/cb", "redirect URL").is_ok());
    assert!(require_https_or_loopback("http://[::1]/cb", "redirect URL").is_ok());
    assert!(require_https_or_loopback("http://localhost:8080/cb", "redirect URL").is_ok());
    assert!(require_https_or_loopback("http://LOCALHOST/cb", "redirect URL").is_ok());
    assert!(matches!(
        require_https_or_loopback("http://127.0.0.2/cb", "token URL"),
        Err(Error::InvalidConfiguration(m)) if m == "token URL must use HTTPS (plain HTTP is allowed only for loopback hosts)"
    ));
    assert!(matches!(
        require_https_or_loopback("ftp://example.com/x", "token URL"),
        Err(Error::InvalidConfiguration(_))
    ));
    assert!(matches!(
        require_https_or_loopback("not a url", "auth URL"),
        Err(Error::InvalidConfiguration(m)) if m == "Invalid auth URL: not a valid URL"
    ));
}

#[test]
fn oauth_urls_are_checked_in_order() {
    let mut config = OAuth2Config {
        client_id: "client".to_string(),
        client_secret: None,
        auth_url: "https://auth.example.com/authorize".to_string(),
        token_url: "http://auth.example.com/token".to_string(),
        redirect_url: "http://remote.example.com/callback".to_string(),
        resource: "https://mcp.example.com".to_string(),
        scopes: vec![],
    };
    assert!(check_oauth_urls(&config).unwrap_err().to_string().contains("token URL"));
    config.token_url = "https://auth.example.com/token".to_string();
    assert!(check_oauth_urls(&config).unwrap_err().to_string().contains("redirect URL"));
    config.redirect_url = "http://localhost:1234/callback".to_string();
    assert!(check_oauth_urls(&config).is_ok());
}
