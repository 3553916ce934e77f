use base64::Engine;

use frostpaw_auth::cache::TokenCache;
use frostpaw_auth::clients::ClientRegistry;
use frostpaw_auth::clients::RegisteredClient;
use frostpaw_auth::crypto::expected_claw;
use frostpaw_auth::nonce::NonceError;
use frostpaw_auth::nonce::verify;
use frostpaw_auth::refresh::RefreshStore;
use frostpaw_auth::session::LoginResponse;
use frostpaw_auth::session::complete_login;
use frostpaw_auth::session::issue_client_session;
use frostpaw_auth::session::login_link;
use frostpaw_auth::session::login_redirect_uri;
use frostpaw_auth::session::logout;
use frostpaw_auth::session::mint_access_token;
use frostpaw_auth::session::session_cookie;
use frostpaw_auth::session::valid_login_origin;

const RANDOM_A: &str = "0123456789abcdef0123456789abcdef0123456789abcdef0123456789abcdef";
const RANDOM_B: &str = "fedcba9876543210fedcba9876543210fedcba9876543210fedcba9876543210";
const RANDOM_C: &str = "1111222233334444555566667777888811112222333344445555666677778888";

fn registry_with(id: &str, secret: &str) -> ClientRegistry {
    let mut registry = ClientRegistry::new();
    let added = registry.register(RegisteredClient {
        id: id.to_string(),
        name: format!("{} client", id),
        secret: secret.to_string(),
    });
    assert!(added);
    registry
}

#[test]
fn register_refuses_duplicate_id() {
    let mut registry = registry_with("cat", "s1");
    let again = registry.register(RegisteredClient {
        id: "cat".to_string(),
        name: "other".to_string(),
        secret: "s2".to_string(),
    });
    assert!(!again);
    assert_eq!(registry.get(&"cat".to_string()).unwrap().secret, "s1");
    assert!(registry.get(&"dog".to_string()).is_none());
}

// Any unseathe_time whose distance from now falls outside [5, 75] is rejected
// as too old, whatever the digest says.
#[test]
fn stale_nonce_rejected_regardless_of_signature() {
    let registry = registry_with("cat", "mew-secret");
    let now: u64 = 1_000_000;
    for t in [now - 76, now - 4, now - 1, now, now + 10, now - 1000] {
        let claw = expected_claw("mew-secret", t);
        let r = verify(
            &registry,
            &Some("cat".to_string()),
            &Some(claw),
            &Some(t),
            now,
        );
        assert!(matches!(r, Err(NonceError::TooOld)));
    }
}

#[test]
fn nonce_window_boundaries_accepted() {
    let registry = registry_with("cat", "mew-secret");
    let now: u64 = 1_000_000;
    for t in [now - 5, now - 75, now - 40] {
        let claw = expected_claw("mew-secret", t);
        let r = verify(
            &registry,
            &Some("cat".to_string()),
            &Some(claw),
            &Some(t),
            now,
        );
        assert!(r.is_ok());
    }
}

#[test]
fn incomplete_challenge_rejected_before_anything_else() {
    let registry = registry_with("cat", "mew-secret");
    let now: u64 = 1_000_000;
    let claw = expected_claw("mew-secret", now - 10);
    let r = verify(&registry, &None, &Some(claw.clone()), &Some(now - 10), now);
    assert!(matches!(r, Err(NonceError::IncompleteChallenge)));
    let r = verify(&registry, &Some("cat".to_string()), &None, &Some(now - 10), now);
    assert!(matches!(r, Err(NonceError::IncompleteChallenge)));
    let r = verify(&registry, &Some("cat".to_string()), &Some(claw), &None, now);
    assert!(matches!(r, Err(NonceError::IncompleteChallenge)));
}

#[test]
fn unknown_client_rejected() {
    let registry = registry_with("cat", "mew-secret");
    let now: u64 = 1_000_000;
    let claw = expected_claw("mew-secret", now - 10);
    let r = verify(&registry, &Some("dog".to_string()), &Some(claw), &Some(now - 10), now);
    assert!(matches!(r, Err(NonceError::UnknownClient)));
}

#[test]
fn bad_signature_carries_both_digests() {
    let registry = registry_with("cat", "mew-secret");
    let now: u64 = 1_000_000;
    let r = verify(
        &registry,
        &Some("cat".to_string()),
        &Some("not-the-digest".to_string()),
        &Some(now - 10),
        now,
    );
    match r {
        Err(NonceError::BadSignature { expected, got }) => {
            assert_eq!(expected, expected_claw("mew-secret", now - 10));
            assert_eq!(got, "not-the-digest");
        }
        other => panic!("expected a bad signature, got {:?}", other),
    }
}

// A digest computed outside the verifier with the same key and message is
// accepted.
#[test]
fn recomputed_digest_accepted() {
    let registry = registry_with("cat", "mew-secret");
    let now: u64 = 1_000_000;
    let t = now - 10;
    let mut mac =
        <hmac::Hmac<sha2::Sha512> as hmac::KeyInit>::new_from_slice(b"mew-secret").unwrap();
    hmac::Mac::update(&mut mac, t.to_string().as_bytes());
    let claw = hex::encode(hmac::Mac::finalize(mac).into_bytes());
    let r = verify(&registry, &Some("cat".to_string()), &Some(claw), &Some(t), now);
    assert!(r.is_ok());
}

#[test]
fn cache_insert_get_invalidate() {
    let mut cache = TokenCache::new();
    let cat = "cat".to_string();
    let tok_a = issue_client_session(&mut cache, &cat, 7, "underlying-7".to_string(), RANDOM_A);
    assert_eq!(cache.len(), 1);
    let session = cache.get(&tok_a).unwrap();
    assert_eq!(session.client_id, "cat");
    assert_eq!(session.user_id, 7);
    assert_eq!(session.token, "underlying-7");
    assert!(cache.get(&"Frostpaw.unknown".to_string()).is_none());
    cache.invalidate(&tok_a);
    assert_eq!(cache.len(), 0);
    assert!(cache.get(&tok_a).is_none());
}

// Minting twice in succession for the same (client, user) pair leaves exactly
// one live entry: the second token.
#[test]
fn second_mint_invalidates_first() {
    let mut cache = TokenCache::new();
    let cat = "cat".to_string();
    let dog = "dog".to_string();
    let other = issue_client_session(&mut cache, &dog, 7, "underlying-dog".to_string(), RANDOM_C);
    let first = issue_client_session(&mut cache, &cat, 7, "underlying-7".to_string(), RANDOM_A);
    let second = issue_client_session(&mut cache, &cat, 7, "underlying-7".to_string(), RANDOM_B);
    assert_ne!(first, second);
    assert_eq!(cache.count_pair(&cat, 7), 1);
    assert!(cache.get(&first).is_none());
    assert!(cache.get(&second).is_some());
    // an entry for another client or user is untouched
    assert_eq!(cache.count_pair(&dog, 7), 1);
    assert!(cache.get(&other).is_some());
    assert_eq!(cache.len(), 2);
}

#[test]
fn mint_access_token_has_fixed_prefix() {
    let token = mint_access_token(RANDOM_A);
    assert_eq!(token, format!("Frostpaw.{}", RANDOM_A));
    assert_eq!(token.len(), 73);
}

#[test]
fn origin_allow_list() {
    assert!(valid_login_origin("https://fateslist.xyz"));
    assert!(valid_login_origin("https://www.fateslist.xyz"));
    assert!(valid_login_origin("https://sunbeam.fateslist.xyz"));
    assert!(!valid_login_origin("https://evil.example.com"));
    assert!(!valid_login_origin("https://fateslist.xyz/"));
    assert!(!valid_login_origin(""));
}

#[test]
fn redirect_uri_appends_login_path() {
    assert_eq!(
        login_redirect_uri("https://sunbeam.fateslist.xyz"),
        "https://sunbeam.fateslist.xyz/frostpaw/login"
    );
}

#[test]
fn login_link_builds_authorize_url() {
    let link = login_link("12345", "https://fateslist.xyz");
    assert_eq!(
        link.url,
        "https://discord.com/oauth2/authorize?client_id=12345&redirect_uri=https://fateslist.xyz/frostpaw/login&scope=identify&response_type=code"
    );
    assert_eq!(link.state.len(), 36);
    for (i, c) in link.state.chars().enumerate() {
        if i == 8 || i == 13 || i == 18 || i == 23 {
            assert_eq!(c, '-');
        } else {
            assert!(c.is_ascii_hexdigit() && !c.is_ascii_uppercase());
        }
    }
    let again = login_link("12345", "https://fateslist.xyz");
    assert_ne!(link.state, again.state);
}

// Login with frostpaw = false: a session cookie with the fixed attributes and
// the base64 payload, and no access token anywhere.
#[test]
fn cookie_login_sets_strict_cookie_and_no_token() {
    let registry = registry_with("cat", "mew-secret");
    let mut cache = TokenCache::new();
    let mut store = RefreshStore::new();
    let payload = br#"{"user":"7"}"#;
    let r = complete_login(
        &registry,
        &mut cache,
        &mut store,
        false,
        &None,
        &None,
        &None,
        1_000_000,
        7,
        "underlying-7".to_string(),
        payload,
        RANDOM_A,
        "refresh-fresh".to_string(),
    );
    match r {
        LoginResponse::CookieLogin { cookie } => {
            assert_eq!(cookie.name, "sunbeam-session:warriorcats");
            assert_eq!(cookie.path, "/");
            assert_eq!(cookie.domain, "fateslist.xyz");
            assert!(cookie.secure);
            assert!(cookie.http_only);
            assert!(cookie.same_site_strict);
            assert_eq!(cookie.max_age_secs, Some(28800));
            let reference = base64::engine::general_purpose::STANDARD.encode(payload);
            assert_eq!(cookie.value, reference);
        }
        _ => panic!("expected the cookie path"),
    }
    assert_eq!(cache.len(), 0);
}

// Login with frostpaw = true and a valid nonce for a known client: distinct
// access and refresh tokens, the access token prefixed, and no cookie.
#[test]
fn client_login_mints_tokens_and_no_cookie() {
    let registry = registry_with("cat", "mew-secret");
    let mut cache = TokenCache::new();
    let mut store = RefreshStore::new();
    let now: u64 = 1_000_000;
    let claw = expected_claw("mew-secret", now - 10);
    let r = complete_login(
        &registry,
        &mut cache,
        &mut store,
        true,
        &Some("cat".to_string()),
        &Some(claw),
        &Some(now - 10),
        now,
        7,
        "underlying-7".to_string(),
        b"unused-payload",
        RANDOM_A,
        "refresh-fresh".to_string(),
    );
    match r {
        LoginResponse::ClientLogin { access_token, refresh_token } => {
            assert!(access_token.starts_with("Frostpaw."));
            assert_eq!(access_token, format!("Frostpaw.{}", RANDOM_A));
            assert_eq!(refresh_token, "refresh-fresh");
            assert_ne!(access_token, refresh_token);
            let session = cache.get(&access_token).unwrap();
            assert_eq!(session.client_id, "cat");
            assert_eq!(session.user_id, 7);
            assert_eq!(session.token, "underlying-7");
        }
        _ => panic!("expected the client path"),
    }
    assert_eq!(cache.count_pair(&"cat".to_string(), 7), 1);
}

#[test]
fn client_login_with_stale_nonce_rejected_and_state_untouched() {
    let registry = registry_with("cat", "mew-secret");
    let mut cache = TokenCache::new();
    let mut store = RefreshStore::new();
    let now: u64 = 1_000_000;
    let claw = expected_claw("mew-secret", now - 100);
    let r = complete_login(
        &registry,
        &mut cache,
        &mut store,
        true,
        &Some("cat".to_string()),
        &Some(claw),
        &Some(now - 100),
        now,
        7,
        "underlying-7".to_string(),
        b"unused-payload",
        RANDOM_A,
        "refresh-fresh".to_string(),
    );
    assert!(matches!(r, LoginResponse::Rejected { error: NonceError::TooOld }));
    assert_eq!(cache.len(), 0);
}

#[test]
fn client_login_missing_fields_rejected() {
    let registry = registry_with("cat", "mew-secret");
    let mut cache = TokenCache::new();
    let mut store = RefreshStore::new();
    let r = complete_login(
        &registry,
        &mut cache,
        &mut store,
        true,
        &Some("cat".to_string()),
        &None,
        &Some(999_990),
        1_000_000,
        7,
        "underlying-7".to_string(),
        b"unused-payload",
        RANDOM_A,
        "refresh-fresh".to_string(),
    );
    assert!(matches!(r, LoginResponse::Rejected { error: NonceError::IncompleteChallenge }));
}

// A second client login for the same (client, user) pair reuses the refresh
// token and leaves exactly one live access token.
#[test]
fn repeated_client_login_reuses_refresh_token() {
    let registry = registry_with("cat", "mew-secret");
    let mut cache = TokenCache::new();
    let mut store = RefreshStore::new();
    let now: u64 = 1_000_000;
    let claw = expected_claw("mew-secret", now - 10);
    let first = complete_login(
        &registry,
        &mut cache,
        &mut store,
        true,
        &Some("cat".to_string()),
        &Some(claw.clone()),
        &Some(now - 10),
        now,
        7,
        "underlying-7".to_string(),
        b"",
        RANDOM_A,
        "refresh-one".to_string(),
    );
    let second = complete_login(
        &registry,
        &mut cache,
        &mut store,
        true,
        &Some("cat".to_string()),
        &Some(claw),
        &Some(now - 10),
        now,
        7,
        "underlying-7".to_string(),
        b"",
        RANDOM_B,
        "refresh-two".to_string(),
    );
    let (first_access, first_refresh) = match first {
        LoginResponse::ClientLogin { access_token, refresh_token } => (access_token, refresh_token),
        _ => panic!("expected the client path"),
    };
    let (second_access, second_refresh) = match second {
        LoginResponse::ClientLogin { access_token, refresh_token } => {
            (access_token, refresh_token)
        }
        _ => panic!("expected the client path"),
    };
    assert_ne!(first_access, second_access);
    assert_eq!(first_refresh, "refresh-one");
    assert_eq!(second_refresh, "refresh-one");
    assert_eq!(cache.count_pair(&"cat".to_string(), 7), 1);
    assert!(cache.get(&first_access).is_none());
    assert!(cache.get(&second_access).is_some());
}

// Logout always answers 200 with a cookie that expires the session cookie,
// whether or not any session existed.
#[test]
fn logout_always_succeeds_with_expiring_cookie() {
    let r = logout();
    assert_eq!(r.status, 200);
    assert_eq!(r.cookie.name, "sunbeam-session:warriorcats");
    assert_eq!(r.cookie.value, "");
    assert_eq!(r.cookie.path, "/");
    assert_eq!(r.cookie.domain, "fateslist.xyz");
    assert!(r.cookie.secure);
    assert!(r.cookie.http_only);
    assert!(r.cookie.same_site_strict);
    assert_eq!(r.cookie.max_age_secs, Some(0));
    let again = logout();
    assert_eq!(again.status, 200);
}

#[test]
fn session_cookie_value_is_standard_base64() {
    let payload = b"any bytes \x00\xff here";
    let cookie = session_cookie(payload);
    let reference = base64::engine::general_purpose::STANDARD.encode(payload);
    assert_eq!(cookie.value, reference);
    assert_eq!(cookie.max_age_secs, Some(28800));
}
