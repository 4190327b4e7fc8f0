use lyricsify::auth::{
    exchange_failed_error, initialize_outcome, AuthConfig, AuthManager, InitPlan, Token,
    TokenCheck,
};
use lyricsify::error::LyricsifyError;

fn config() -> AuthConfig {
    AuthConfig::new(
        Some("client-id".to_string()),
        Some("client-secret".to_string()),
        None,
    )
    .unwrap()
}

fn token_expiring_at(expires_at: Option<i64>) -> Token {
    Token {
        access_token: "access".to_string(),
        refresh_token: Some("refresh".to_string()),
        expires_at,
        scopes: vec!["user-read-currently-playing".to_string()],
    }
}

#[test]
fn config_requires_client_id() {
    let r = AuthConfig::new(None, Some("secret".to_string()), None);
    match r {
        Err(LyricsifyError::AuthenticationFailed(m)) => {
            assert_eq!(m, "SPOTIFY_CLIENT_ID environment variable not set")
        }
        _ => panic!("expected an authentication failure"),
    }
}

#[test]
fn config_requires_client_secret() {
    let r = AuthConfig::new(Some("id".to_string()), None, None);
    match r {
        Err(LyricsifyError::AuthenticationFailed(m)) => {
            assert_eq!(m, "SPOTIFY_CLIENT_SECRET environment variable not set")
        }
        _ => panic!("expected an authentication failure"),
    }
}

#[test]
fn config_defaults_the_redirect_uri() {
    let cfg = config();
    assert_eq!(cfg.redirect_uri, "http://localhost:8888/callback");
    assert_eq!(
        cfg.scopes,
        vec![
            "user-read-currently-playing".to_string(),
            "user-read-playback-state".to_string()
        ]
    );
}

#[test]
fn auth_url_is_built_from_the_configuration() {
    let manager = AuthManager::new(config());
    let url = manager.get_auth_url().unwrap();
    assert_eq!(
        url,
        "https://accounts.spotify.com/authorize?client_id=client-id\
         &response_type=code&redirect_uri=http%3A%2F%2Flocalhost%3A8888%2Fcallback\
         &scope=user-read-currently-playing%20user-read-playback-state"
    );
}

#[test]
fn auth_url_requires_a_client_id() {
    let cfg = AuthConfig::new(Some("".to_string()), Some("s".to_string()), None).unwrap();
    let manager = AuthManager::new(cfg);
    assert!(manager.get_auth_url().is_err());
}

#[test]
fn token_validity_boundary() {
    // A token expiring 59 seconds from now is invalid; 61 seconds is valid.
    let now: i64 = 1_700_000_000;
    assert!(!token_expiring_at(Some(now + 59)).is_valid_at(now));
    assert!(token_expiring_at(Some(now + 61)).is_valid_at(now));
}

#[test]
fn validity_against_the_live_clock() {
    let mut manager = AuthManager::new(config());
    assert!(!manager.is_token_valid());
    // A token without an expiry is valid whatever the clock says.
    manager.set_token(token_expiring_at(None));
    assert!(manager.is_token_valid());
    // One that expired long ago is not.
    manager.set_token(token_expiring_at(Some(1)));
    assert!(!manager.is_token_valid());
}

#[test]
fn token_without_expiry_is_valid_once_present() {
    let now: i64 = 1_700_000_000;
    assert!(token_expiring_at(None).is_valid_at(now));
}

#[test]
fn expired_token_with_failed_refresh_requires_reauthentication() {
    // Scenario: the stored token expired one second ago and the refresh
    // call fails; the token is cleared and startup ends unauthenticated.
    let now: i64 = 1_700_000_000;
    let mut manager = AuthManager::new(config());
    let plan = manager.initialize_plan(Some(token_expiring_at(Some(now - 1))), now);
    assert_eq!(plan, InitPlan::RefreshNeeded);
    let e = manager.refresh_failed("invalid_grant");
    match e {
        LyricsifyError::AuthenticationFailed(m) => assert_eq!(
            m,
            "Token refresh failed, re-authentication required: invalid_grant"
        ),
        _ => panic!("expected an authentication failure"),
    }
    assert!(manager.get_token().is_none());
    assert!(!manager.is_authenticated());
    assert!(!initialize_outcome(plan, false));
}

#[test]
fn initialize_with_no_stored_token_requires_authentication() {
    let now: i64 = 1_700_000_000;
    let mut manager = AuthManager::new(config());
    let plan = manager.initialize_plan(None, now);
    assert_eq!(plan, InitPlan::AuthenticationRequired);
    assert!(!initialize_outcome(plan, true));
}

#[test]
fn initialize_with_valid_token_is_authenticated() {
    let now: i64 = 1_700_000_000;
    let mut manager = AuthManager::new(config());
    let plan = manager.initialize_plan(Some(token_expiring_at(Some(now + 3600))), now);
    assert_eq!(plan, InitPlan::Authenticated);
    assert!(initialize_outcome(plan, false));
    assert!(manager.is_authenticated());
}

#[test]
fn initialize_refresh_success_is_authenticated() {
    assert!(initialize_outcome(InitPlan::RefreshNeeded, true));
}

#[test]
fn refresh_success_adopts_the_new_token() {
    let mut manager = AuthManager::new(config());
    manager.set_token(token_expiring_at(Some(10)));
    assert!(manager.begin_refresh().is_ok());
    manager.refresh_succeeded(token_expiring_at(Some(20)));
    let held = manager.get_token().as_ref().unwrap();
    assert_eq!(held.expires_at, Some(20));
}

#[test]
fn refresh_without_token_is_refused() {
    let manager = AuthManager::new(config());
    match manager.begin_refresh() {
        Err(LyricsifyError::AuthenticationFailed(m)) => {
            assert_eq!(m, "No token available to refresh")
        }
        _ => panic!("expected an authentication failure"),
    }
}

#[test]
fn ensure_valid_fails_when_unauthenticated() {
    let now: i64 = 1_700_000_000;
    let manager = AuthManager::new(config());
    match manager.ensure_token_valid_plan(now) {
        Err(LyricsifyError::AuthenticationFailed(m)) => assert_eq!(m, "Not authenticated"),
        _ => panic!("expected an authentication failure"),
    }
}

#[test]
fn ensure_valid_refreshes_only_expired_tokens() {
    let now: i64 = 1_700_000_000;
    let mut manager = AuthManager::new(config());
    manager.set_token(token_expiring_at(Some(now + 3600)));
    assert_eq!(
        manager.ensure_token_valid_plan(now).unwrap(),
        TokenCheck::StillValid
    );
    manager.set_token(token_expiring_at(Some(now + 30)));
    assert_eq!(
        manager.ensure_token_valid_plan(now).unwrap(),
        TokenCheck::RefreshNeeded
    );
}

#[test]
fn saving_requires_a_token() {
    let manager = AuthManager::new(config());
    match manager.token_to_store() {
        Err(LyricsifyError::AuthenticationFailed(m)) => {
            assert_eq!(m, "No token available to save")
        }
        _ => panic!("expected an authentication failure"),
    }
}

#[test]
fn exchange_failure_formats_the_detail() {
    let e = exchange_failed_error("bad code");
    match e {
        LyricsifyError::AuthenticationFailed(m) => {
            assert_eq!(m, "Failed to exchange code for token: bad code")
        }
        _ => panic!("expected an authentication failure"),
    }
}
