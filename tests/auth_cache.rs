use copilotha::auth::{is_success_status, AuthError, Authenticator, CredentialCache, Lookup, Token};

fn token(secret: &str, expires_at: u64) -> Token {
    Token { token: secret.to_string(), expires_at }
}

#[test]
fn expiry_boundary_is_expired() {
    let t = token("abc", 1000);
    assert!(!t.is_available_at(1000));
    assert!(t.is_available_at(999));
    assert!(!t.is_available_at(1001));
}

#[test]
fn is_available_uses_current_time() {
    assert!(!token("old", 0).is_available());
    assert!(!token("old", 1).is_available());
    assert!(token("far", u64::MAX).is_available());
}

#[test]
fn new_cache_starts_expired() {
    let cache = CredentialCache::new(500);
    assert_eq!(cache.current.token, "");
    assert_eq!(cache.current.expires_at, 500);
    assert!(matches!(cache.lookup(500), Lookup::Refresh));
}

#[test]
fn valid_cache_is_reused_without_refresh() {
    let cache = CredentialCache { current: token("cached", 2000) };
    let mut refreshes = 0;
    for now in [1000u64, 1000, 1500, 1999] {
        match cache.lookup(now) {
            Lookup::Ready(s) => assert_eq!(s, "cached"),
            Lookup::Refresh => refreshes += 1,
        }
    }
    assert_eq!(refreshes, 0);
}

#[test]
fn simultaneous_requests_share_one_refresh() {
    let mut cache = CredentialCache::new(1000);
    let mut refreshes = 0;
    let mut replies = Vec::new();
    for _ in 0..5 {
        match cache.lookup(1000) {
            Lookup::Ready(s) => replies.push(Some(s)),
            Lookup::Refresh => {
                refreshes += 1;
                replies.push(cache.complete_refresh(Ok(token("fresh", 2800))));
            }
        }
    }
    assert_eq!(refreshes, 1);
    assert_eq!(replies.len(), 5);
    for r in replies {
        assert_eq!(r, Some("fresh".to_string()));
    }
}

#[test]
fn failed_refresh_keeps_old_credential_and_retries_next_time() {
    let mut cache = CredentialCache { current: token("stale", 10) };
    assert!(matches!(cache.lookup(10), Lookup::Refresh));
    assert_eq!(cache.complete_refresh(Err(AuthError::Status(401))), None);
    assert_eq!(cache.current.token, "stale");
    assert_eq!(cache.current.expires_at, 10);
    assert!(matches!(cache.lookup(11), Lookup::Refresh));
    assert_eq!(cache.complete_refresh(Ok(token("new", 100))), Some("new".to_string()));
    assert!(matches!(cache.lookup(11), Lookup::Ready(s) if s == "new"));
}

#[test]
fn success_status_range() {
    assert!(!is_success_status(199));
    assert!(is_success_status(200));
    assert!(is_success_status(204));
    assert!(is_success_status(299));
    assert!(!is_success_status(300));
    assert!(!is_success_status(500));
}

#[test]
fn auth_result_by_status_and_body() {
    let a = Authenticator::new("gho_secret".to_string());
    assert!(matches!(a.auth(500, Some(token("x", 1))), Err(AuthError::Status(500))));
    assert!(matches!(a.auth(401, None), Err(AuthError::Status(401))));
    assert!(matches!(a.auth(200, None), Err(AuthError::Decode)));
    match a.auth(200, Some(token("tid", 77))) {
        Ok(t) => {
            assert_eq!(t.token, "tid");
            assert_eq!(t.expires_at, 77);
        }
        Err(_) => panic!("expected a credential"),
    }
}

#[test]
fn token_request_headers() {
    let a = Authenticator::new("gho_secret".to_string());
    let h = a.request_headers();
    let expected: Vec<(String, String)> = vec![
        ("Authorization".to_string(), "token gho_secret".to_string()),
        ("Accept".to_string(), "application/json".to_string()),
        ("editor-version".to_string(), "Neovim/8.0.0".to_string()),
        ("editor-plugin-version".to_string(), "CopilotChat.nvim/2.0.0".to_string()),
        ("user-agent".to_string(), "CopilotChat.nvim/2.0.0".to_string()),
    ];
    assert_eq!(h, expected);
}
