use base64::Engine;
use hmac::Mac;
use token_gate::errors::{deny_status, AuthError};
use token_gate::flow::{extract_bearer, response_status, should_invoke_handler, verify_attempt, VerifyFlow};
use token_gate::keys::{KeyCache, KeyEntry};
use token_gate::policy::{evaluate, AuthDecision, PassthroughMode, RoutePolicy};
use token_gate::token::{verify, VerifierConfig};

fn b64(s: &[u8]) -> String {
    base64::engine::general_purpose::URL_SAFE_NO_PAD.encode(s)
}

fn sign(secret: &[u8], msg: &[u8]) -> Vec<u8> {
    let mut m = <hmac::Hmac<sha2::Sha256> as hmac::KeyInit>::new_from_slice(secret).unwrap();
    m.update(msg);
    m.finalize().into_bytes().to_vec()
}

fn make_token(header: &str, secret: &[u8], payload: &str) -> Vec<u8> {
    let si = format!("{}.{}", b64(header.as_bytes()), b64(payload.as_bytes()));
    let tag = sign(secret, si.as_bytes());
    format!("{}.{}", si, b64(&tag)).into_bytes()
}

const SECRET: &[u8] = b"a-shared-signing-secret";
const PAYLOAD: &str =
    "iss=https://idp/my_realm;sub=alice;aud=account,web;exp=2000000000;iat=1000000000;roles=read,write;realm=admin";
const NOW: u64 = 1700000000;

fn test_cache() -> KeyCache {
    let mut cache = KeyCache::new(3600, 60);
    let entry = KeyEntry { kid: b"k1".to_vec(), secret: SECRET.to_vec() };
    cache.complete_refresh(Some(vec![entry]), NOW);
    cache
}

fn test_config() -> VerifierConfig {
    VerifierConfig {
        issuer: b"https://idp/my_realm".to_vec(),
        audiences: vec![b"account".to_vec()],
        skew: 30,
    }
}

fn read_policy(mode: PassthroughMode) -> RoutePolicy {
    RoutePolicy {
        required_audiences: vec![b"account".to_vec()],
        required_roles: vec![b"read".to_vec()],
        mode,
    }
}

#[test]
fn valid_token_yields_claims() {
    let tok = make_token("HS256:k1", SECRET, PAYLOAD);
    let cs = verify(&tok, &test_config(), &test_cache(), NOW).unwrap();
    assert_eq!(cs.subject(), &b"alice".to_vec());
    assert_eq!(
        cs.roles(),
        &vec![b"read".to_vec(), b"write".to_vec(), b"realm:admin".to_vec()]
    );
    assert_eq!(cs.audiences(), &vec![b"account".to_vec(), b"web".to_vec()]);
    assert_eq!(cs.expires_at(), 2000000000);
    assert_eq!(cs.issued_at(), 1000000000);
}

#[test]
fn malformed_tokens_rejected() {
    let cfg = test_config();
    let cache = test_cache();
    let cases: Vec<Vec<u8>> = vec![
        b"garbage".to_vec(),
        b"only.two".to_vec(),
        b"a.b.c.d".to_vec(),
        b"!!!.###.$$$".to_vec(),
        make_token("HS256", SECRET, PAYLOAD),
        make_token("HS256:k1", SECRET, "iss=x;sub=y"),
        make_token("HS256:k1", SECRET, "xss=a;sub=b;aud=c;exp=1;iat=1;roles=;realm="),
        make_token("HS256:k1", SECRET, "iss=a;sub=b;aud=c;exp=notanumber;iat=1;roles=;realm="),
        make_token("HS256:k1", SECRET, "iss=a;sub=b;aud=c;exp=12345678901234567890;iat=1;roles=;realm="),
        Vec::new(),
    ];
    for tok in cases {
        assert_eq!(verify(&tok, &cfg, &cache, NOW), Err(AuthError::Malformed));
    }
}

#[test]
fn expired_token_rejected() {
    let payload =
        "iss=https://idp/my_realm;sub=alice;aud=account;exp=1600000000;iat=1500000000;roles=read;realm=";
    let tok = make_token("HS256:k1", SECRET, payload);
    assert_eq!(
        verify(&tok, &test_config(), &test_cache(), NOW),
        Err(AuthError::Expired)
    );
}

#[test]
fn expiry_respects_skew_tolerance() {
    let payload = format!(
        "iss=https://idp/my_realm;sub=alice;aud=account;exp={};iat=1;roles=read;realm=",
        NOW - 30
    );
    let tok = make_token("HS256:k1", SECRET, &payload);
    // exactly at the skew boundary: still accepted
    assert!(verify(&tok, &test_config(), &test_cache(), NOW).is_ok());
    // one second beyond the tolerance: expired
    assert_eq!(
        verify(&tok, &test_config(), &test_cache(), NOW + 1),
        Err(AuthError::Expired)
    );
}

#[test]
fn tampered_payload_invalidates_signature() {
    let tok = make_token("HS256:k1", SECRET, PAYLOAD);
    let tampered_payload = PAYLOAD.replace("sub=alice", "sub=mallory");
    let parts: Vec<&str> = std::str::from_utf8(&tok).unwrap().split('.').collect();
    let forged = format!(
        "{}.{}.{}",
        parts[0],
        b64(tampered_payload.as_bytes()),
        parts[2]
    );
    assert_eq!(
        verify(forged.as_bytes(), &test_config(), &test_cache(), NOW),
        Err(AuthError::InvalidSignature)
    );
}

#[test]
fn wrong_secret_invalidates_signature() {
    let tok = make_token("HS256:k1", b"another-secret", PAYLOAD);
    assert_eq!(
        verify(&tok, &test_config(), &test_cache(), NOW),
        Err(AuthError::InvalidSignature)
    );
}

#[test]
fn disallowed_algorithm_rejected() {
    let tok = make_token("none:k1", SECRET, PAYLOAD);
    assert_eq!(
        verify(&tok, &test_config(), &test_cache(), NOW),
        Err(AuthError::InvalidSignature)
    );
}

#[test]
fn unknown_key_identifier() {
    let tok = make_token("HS256:k9", SECRET, PAYLOAD);
    assert_eq!(
        verify(&tok, &test_config(), &test_cache(), NOW),
        Err(AuthError::UnknownKey)
    );
}

#[test]
fn issuer_mismatch_rejected() {
    let payload =
        "iss=https://evil/realm;sub=alice;aud=account;exp=2000000000;iat=1;roles=read;realm=";
    let tok = make_token("HS256:k1", SECRET, payload);
    assert_eq!(
        verify(&tok, &test_config(), &test_cache(), NOW),
        Err(AuthError::IssuerMismatch)
    );
}

#[test]
fn audience_mismatch_rejected() {
    let payload =
        "iss=https://idp/my_realm;sub=alice;aud=other;exp=2000000000;iat=1;roles=read;realm=";
    let tok = make_token("HS256:k1", SECRET, payload);
    assert_eq!(
        verify(&tok, &test_config(), &test_cache(), NOW),
        Err(AuthError::AudienceMismatch)
    );
}

#[test]
fn missing_role_denied_with_name() {
    let payload =
        "iss=https://idp/my_realm;sub=alice;aud=account;exp=2000000000;iat=1;roles=write;realm=";
    let tok = make_token("HS256:k1", SECRET, payload);
    let outcome = verify(&tok, &test_config(), &test_cache(), NOW);
    let decision = evaluate(outcome, &read_policy(PassthroughMode::Block));
    assert_eq!(
        decision,
        AuthDecision::Deny(AuthError::MissingRole(b"read".to_vec()))
    );
    assert_eq!(response_status(&decision), 403);
}

#[test]
fn adding_missing_role_flips_to_allow() {
    let payload =
        "iss=https://idp/my_realm;sub=alice;aud=account;exp=2000000000;iat=1;roles=write,read;realm=";
    let tok = make_token("HS256:k1", SECRET, payload);
    let outcome = verify(&tok, &test_config(), &test_cache(), NOW);
    let decision = evaluate(outcome, &read_policy(PassthroughMode::Block));
    assert!(matches!(decision, AuthDecision::Allow(_)));
    assert_eq!(response_status(&decision), 200);
}

#[test]
fn realm_role_satisfies_namespaced_requirement() {
    let tok = make_token("HS256:k1", SECRET, PAYLOAD);
    let outcome = verify(&tok, &test_config(), &test_cache(), NOW);
    let policy = RoutePolicy {
        required_audiences: vec![b"account".to_vec()],
        required_roles: vec![b"realm:admin".to_vec()],
        mode: PassthroughMode::Block,
    };
    assert!(matches!(evaluate(outcome, &policy), AuthDecision::Allow(_)));
}

#[test]
fn verify_is_idempotent() {
    let tok = make_token("HS256:k1", SECRET, PAYLOAD);
    let cfg = test_config();
    let cache = test_cache();
    let first = verify(&tok, &cfg, &cache, NOW);
    let second = verify(&tok, &cfg, &cache, NOW + 1000);
    assert!(first.is_ok());
    assert_eq!(first, second);
}

#[test]
fn refresh_single_flight() {
    let mut cache = KeyCache::new(3600, 60);
    let mut granted: u32 = 0;
    // several concurrent misses ask; only one fetch may start
    for _ in 0..5 {
        if cache.begin_refresh(NOW) {
            granted += 1;
        }
    }
    assert_eq!(granted, 1);
    // the flight completes; the rate limit still holds at the same instant
    let entry = KeyEntry { kid: b"k1".to_vec(), secret: SECRET.to_vec() };
    assert!(cache.complete_refresh(Some(vec![entry]), NOW));
    assert!(!cache.begin_refresh(NOW + 1));
    // after the minimum interval a new refresh may start
    assert!(cache.begin_refresh(NOW + 60));
}

#[test]
fn failed_fetch_keeps_stale_keys() {
    let mut cache = test_cache();
    assert!(!cache.complete_refresh(None, NOW + 10));
    assert!(!cache.complete_refresh(Some(Vec::new()), NOW + 20));
    let tok = make_token("HS256:k1", SECRET, PAYLOAD);
    assert!(verify(&tok, &test_config(), &cache, NOW).is_ok());
}

#[test]
fn bearer_extraction() {
    assert_eq!(extract_bearer(None), Err(AuthError::MissingToken));
    let basic = b"Basic dXNlcjpwdw".to_vec();
    assert_eq!(extract_bearer(Some(&basic)), Err(AuthError::MissingToken));
    let bearer = b"Bearer abc.def.ghi".to_vec();
    assert_eq!(extract_bearer(Some(&bearer)), Ok(b"abc.def.ghi".to_vec()));
}

#[test]
fn missing_token_blocks_with_401() {
    let decision = match extract_bearer(None) {
        Err(e) => evaluate(Err(e), &read_policy(PassthroughMode::Block)),
        Ok(_) => panic!("no header must not yield a token"),
    };
    assert_eq!(decision, AuthDecision::Deny(AuthError::MissingToken));
    assert_eq!(response_status(&decision), 401);
    assert!(!should_invoke_handler(&decision, PassthroughMode::Block));
    assert!(should_invoke_handler(&decision, PassthroughMode::Pass));
}

#[test]
fn unknown_kid_triggers_one_refresh_then_succeeds() {
    let mut cache = test_cache();
    let cfg = test_config();
    let tok = make_token("HS256:k2", b"rotated-secret", PAYLOAD);
    // first attempt: the key is unknown, a refresh is requested
    let flow = verify_attempt(&tok, &cfg, &cache, NOW, false);
    assert!(matches!(flow, VerifyFlow::NeedRefresh));
    // the cache grants exactly one fetch; the provider now reports the key
    assert!(cache.begin_refresh(NOW));
    assert!(!cache.begin_refresh(NOW));
    let rotated = KeyEntry { kid: b"k2".to_vec(), secret: b"rotated-secret".to_vec() };
    assert!(cache.complete_refresh(Some(vec![rotated]), NOW));
    // the retried attempt finishes with success
    match verify_attempt(&tok, &cfg, &cache, NOW, true) {
        VerifyFlow::Done(r) => assert!(r.is_ok()),
        VerifyFlow::NeedRefresh => panic!("a retried attempt must finish"),
    }
}

#[test]
fn unknown_kid_after_refresh_is_denied_401() {
    let mut cache = test_cache();
    let cfg = test_config();
    let tok = make_token("HS256:k2", b"rotated-secret", PAYLOAD);
    assert!(matches!(verify_attempt(&tok, &cfg, &cache, NOW, false), VerifyFlow::NeedRefresh));
    assert!(cache.begin_refresh(NOW));
    // the provider still does not report the key
    assert!(!cache.complete_refresh(None, NOW));
    match verify_attempt(&tok, &cfg, &cache, NOW, true) {
        VerifyFlow::Done(r) => {
            let e = r.unwrap_err();
            assert_eq!(e, AuthError::UnknownKey);
            let decision = evaluate(Err(e), &read_policy(PassthroughMode::Block));
            assert_eq!(response_status(&decision), 401);
        },
        VerifyFlow::NeedRefresh => panic!("a retried attempt must finish"),
    }
}

#[test]
fn fetch_failure_without_fallback_is_503() {
    let mut cache = KeyCache::new(3600, 60);
    let cfg = test_config();
    let tok = make_token("HS256:k1", SECRET, PAYLOAD);
    assert!(matches!(verify_attempt(&tok, &cfg, &cache, NOW, false), VerifyFlow::NeedRefresh));
    assert!(cache.begin_refresh(NOW));
    assert!(!cache.complete_refresh(None, NOW));
    match verify_attempt(&tok, &cfg, &cache, NOW, true) {
        VerifyFlow::Done(r) => {
            let e = r.unwrap_err();
            assert_eq!(e, AuthError::KeyFetchFailed);
            let decision = evaluate(Err(e), &read_policy(PassthroughMode::Block));
            assert_eq!(response_status(&decision), 503);
        },
        VerifyFlow::NeedRefresh => panic!("a retried attempt must finish"),
    }
}

#[test]
fn empty_role_requirement_allows_any_verified_token() {
    let tok = make_token("HS256:k1", SECRET, PAYLOAD);
    let outcome = verify(&tok, &test_config(), &test_cache(), NOW);
    let policy = RoutePolicy {
        required_audiences: Vec::new(),
        required_roles: Vec::new(),
        mode: PassthroughMode::Block,
    };
    assert!(matches!(evaluate(outcome, &policy), AuthDecision::Allow(_)));
}

#[test]
fn status_taxonomy() {
    assert_eq!(deny_status(&AuthError::MissingToken), 401);
    assert_eq!(deny_status(&AuthError::Malformed), 401);
    assert_eq!(deny_status(&AuthError::UnknownKey), 401);
    assert_eq!(deny_status(&AuthError::InvalidSignature), 401);
    assert_eq!(deny_status(&AuthError::Expired), 401);
    assert_eq!(deny_status(&AuthError::IssuerMismatch), 401);
    assert_eq!(deny_status(&AuthError::AudienceMismatch), 403);
    assert_eq!(deny_status(&AuthError::MissingRole(b"read".to_vec())), 403);
    assert_eq!(deny_status(&AuthError::KeyFetchFailed), 503);
}
