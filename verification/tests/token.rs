use spotifly::token::{oauth_scopes, seconds_left, OAuthResult, TokenStore};

#[test]
fn empty_store_answers_nothing() {
    let store = TokenStore::new();
    assert!(!store.has_oauth_result());
    assert_eq!(store.get_access_token(), None);
    assert_eq!(store.get_refresh_token(), None);
    assert_eq!(store.get_token_expires_in(), 0);
}

#[test]
fn stored_grant_is_read_back() {
    let mut store = TokenStore::new();
    store.store(OAuthResult::granted(
        "access".to_string(),
        "refresh".to_string(),
        3_600_999,
        vec!["streaming".to_string()],
    ));
    assert!(store.has_oauth_result());
    assert_eq!(store.get_access_token(), Some("access".to_string()));
    assert_eq!(store.get_refresh_token(), Some("refresh".to_string()));
    assert_eq!(store.get_token_expires_in(), 3600);
}

#[test]
fn grant_without_refresh_token() {
    let mut store = TokenStore::new();
    store.store(OAuthResult {
        access_token: "access".to_string(),
        refresh_token: None,
        expires_in: 7,
        scopes: Vec::new(),
    });
    assert_eq!(store.get_access_token(), Some("access".to_string()));
    assert_eq!(store.get_refresh_token(), None);
    assert_eq!(store.get_token_expires_in(), 7);
}

#[test]
fn later_grant_replaces_the_earlier() {
    let mut store = TokenStore::new();
    store.store(OAuthResult::granted("one".to_string(), "r1".to_string(), 1000, Vec::new()));
    store.store(OAuthResult::granted("two".to_string(), "r2".to_string(), 2000, Vec::new()));
    assert_eq!(store.get_access_token(), Some("two".to_string()));
    assert_eq!(store.get_token_expires_in(), 2);
}

#[test]
fn clear_forgets_the_grant() {
    let mut store = TokenStore::new();
    store.store(OAuthResult::granted("one".to_string(), "r1".to_string(), 1000, Vec::new()));
    store.clear_oauth_result();
    assert!(!store.has_oauth_result());
    assert_eq!(store.get_access_token(), None);
    assert_eq!(store.get_token_expires_in(), 0);
    store.clear_oauth_result();
    assert!(!store.has_oauth_result());
}

#[test]
fn seconds_left_are_whole_seconds() {
    assert_eq!(seconds_left(0), 0);
    assert_eq!(seconds_left(999), 0);
    assert_eq!(seconds_left(1000), 1);
    assert_eq!(seconds_left(1999), 1);
    assert_eq!(seconds_left(3_600_000), 3600);
    assert_eq!(seconds_left(u64::MAX), u64::MAX / 1000);
}

#[test]
fn granted_carries_its_scopes() {
    let grant = OAuthResult::granted("a".to_string(), "r".to_string(), 0, oauth_scopes());
    assert_eq!(grant.expires_in, 0);
    assert_eq!(grant.refresh_token, Some("r".to_string()));
    assert_eq!(grant.scopes, oauth_scopes());
}

#[test]
fn scopes_that_are_asked_for() {
    assert_eq!(
        oauth_scopes(),
        vec![
            "user-read-private",
            "user-read-email",
            "streaming",
            "user-read-playback-state",
            "user-modify-playback-state",
            "user-read-currently-playing",
        ]
    );
}
