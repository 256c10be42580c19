use master_server::token::{
    claim_token_at, verify_token_at, Token, TokenError, ACCESS_VALID_SECS, REFRESH_VALID_SECS,
};
use master_server::user::User;
use master_server::guards::ApiUser;
use jwt_simple::prelude::{Claims, Duration, HS256Key, MACLike, VerificationOptions};
use std::collections::BTreeMap;

const SECRET: &[u8] = b"a-secret-of-enough-length";
const NOW: u64 = 1_700_000_000;
const T: u64 = 1 << 32;

#[test]
fn token_round_trip_within_window() {
    let id = 0x1234_5678_9abc_4def_8123_4567_89ab_cdefu128;
    let name = "alice".to_string();
    let token = claim_token_at(&name, id, SECRET, NOW, ACCESS_VALID_SECS);
    assert_eq!(token.split('.').count(), 3);
    for now in [NOW * T, (NOW + 30) * T + 5, (NOW + 30 + 900) * T, (NOW - 900) * T] {
        let claims = verify_token_at(&token, SECRET, now).unwrap();
        assert_eq!(claims.custom.username, "alice");
        assert_eq!(claims.custom.uuid, id);
        assert_eq!(claims.issued_at, Some(NOW));
        assert_eq!(claims.expires_at, Some(NOW + 30));
        assert_eq!(claims.invalid_before, Some(NOW));
    }
}

#[test]
fn token_round_trip_after_2038() {
    // Issued in 2065 and in the last second the 32-bit seconds allow, with a long name.
    let name = "x".repeat(200_000);
    for issued in [3_000_000_000u64, 0xFFFF_FFFF - REFRESH_VALID_SECS - 1] {
        let token = claim_token_at(&name, 42, SECRET, issued, REFRESH_VALID_SECS);
        for now in [issued * T, (issued + REFRESH_VALID_SECS) * T] {
            if now > master_server::token::MAX_CHECK_TICKS {
                continue;
            }
            let claims = verify_token_at(&token, SECRET, now).unwrap();
            assert_eq!(claims.custom.username, name);
            assert_eq!(claims.custom.uuid, 42);
            assert_eq!(claims.issued_at, Some(issued));
            assert_eq!(claims.expires_at, Some(issued + REFRESH_VALID_SECS));
        }
    }
}

#[test]
fn token_is_deterministic() {
    let name = "bob".to_string();
    let a = claim_token_at(&name, 7, SECRET, NOW, REFRESH_VALID_SECS);
    let b = claim_token_at(&name, 7, SECRET, NOW, REFRESH_VALID_SECS);
    assert_eq!(a, b);
    let c = claim_token_at(&name, 7, SECRET, NOW + 1, REFRESH_VALID_SECS);
    assert_ne!(a, c);
}

#[test]
fn expired_token_is_rejected() {
    let name = "carol".to_string();
    let token = claim_token_at(&name, 9, SECRET, NOW, ACCESS_VALID_SECS);
    match verify_token_at(&token, SECRET, (NOW + 30 + 900) * T + 1) {
        Err(TokenError::Rejected(_)) => {}
        other => panic!("expected a rejection, got {:?}", other.err()),
    }
    match verify_token_at(&token, SECRET, (NOW - 901) * T) {
        Err(TokenError::Rejected(_)) => {}
        other => panic!("expected a rejection, got {:?}", other.err()),
    }
}

#[test]
fn token_with_other_key_is_rejected() {
    let name = "dave".to_string();
    let token = claim_token_at(&name, 9, SECRET, NOW, ACCESS_VALID_SECS);
    assert!(matches!(
        verify_token_at(&token, b"another-secret-entirely", NOW * T),
        Err(TokenError::Rejected(_))
    ));
    assert!(matches!(
        verify_token_at(&"garbage".to_string(), SECRET, NOW * T),
        Err(TokenError::Rejected(_))
    ));
}

#[test]
fn token_without_claims_is_refused() {
    let mut claims = Claims::create(Duration::from_secs(30));
    claims.issued_at = Some(Duration::from_secs(NOW));
    claims.expires_at = Some(Duration::from_secs(NOW + 30));
    claims.invalid_before = Some(Duration::from_secs(NOW));
    let token = HS256Key::from_bytes(SECRET).authenticate(claims).unwrap();
    assert!(matches!(verify_token_at(&token, SECRET, NOW * T), Err(TokenError::MissingClaim)));
}

#[test]
fn token_with_bad_uuid_is_refused() {
    let mut custom = BTreeMap::new();
    custom.insert("username".to_string(), "eve".to_string());
    custom.insert("uuid".to_string(), "not-a-uuid".to_string());
    let mut claims = Claims::with_custom_claims(custom, Duration::from_secs(30));
    claims.issued_at = Some(Duration::from_secs(NOW));
    claims.expires_at = Some(Duration::from_secs(NOW + 30));
    claims.invalid_before = Some(Duration::from_secs(NOW));
    let token = HS256Key::from_bytes(SECRET).authenticate(claims).unwrap();
    assert!(matches!(verify_token_at(&token, SECRET, NOW * T), Err(TokenError::InvalidUuid)));
}

#[test]
fn issued_tokens_verify_now() {
    let name = "frank".to_string();
    let tokens = User::generate_tokens(42, SECRET, &name);
    let claims = User::verify_jwt_token(tokens.token.clone(), SECRET).unwrap();
    assert_eq!(claims.custom.username, "frank");
    assert_eq!(claims.custom.uuid, 42);
    assert_eq!(claims.expires_at.unwrap() - claims.issued_at.unwrap(), 30);
    let claims = User::verify_jwt_token(tokens.refresh_token.clone(), SECRET).unwrap();
    assert_eq!(claims.custom.uuid, 42);
    assert_eq!(claims.expires_at.unwrap() - claims.issued_at.unwrap(), 240);
    assert_eq!(User::do_somethine(), 8);
}

#[test]
fn token_carries_hyphenated_uuid() {
    let id = 0x0011_2233_4455_4677_8899_aabb_ccdd_eeffu128;
    let token = claim_token_at(&"gina".to_string(), id, SECRET, NOW, ACCESS_VALID_SECS);
    let options = VerificationOptions {
        artificial_time: Some(Duration::from_secs(NOW)),
        ..Default::default()
    };
    let claims = HS256Key::from_bytes(SECRET)
        .verify_token::<BTreeMap<String, String>>(&token, Some(options))
        .unwrap();
    assert_eq!(claims.custom.get("uuid").unwrap(), "00112233-4455-4677-8899-aabbccddeeff");
    assert_eq!(claims.custom.get("username").unwrap(), "gina");
    assert_eq!(claims.expires_at.unwrap().as_secs(), NOW + 30);
}

#[test]
fn token_subject_names_the_user() {
    let id = 0x0011_2233_4455_4677_8899_aabb_ccdd_eeffu128;
    let token = User::get_jwt_token(&"hal".to_string(), id, SECRET);
    assert_eq!(
        ApiUser::token_subject(Some(token.clone()), Some(SECRET)).as_deref(),
        Some("00112233-4455-4677-8899-aabbccddeeff")
    );
    assert_eq!(ApiUser::token_subject(None, Some(SECRET)), None);
    assert_eq!(ApiUser::token_subject(Some(token.clone()), None), None);
    assert_eq!(ApiUser::token_subject(Some(token), Some(b"some-other-secret-key")), None);
}

#[test]
fn extra_custom_claims_are_ignored() {
    let mut custom = BTreeMap::new();
    custom.insert("username".to_string(), serde_json::Value::String("ivy".to_string()));
    custom.insert(
        "uuid".to_string(),
        serde_json::Value::String("00112233-4455-4677-8899-aabbccddeeff".to_string()),
    );
    custom.insert("role".to_string(), serde_json::Value::from(7));
    let mut claims = Claims::with_custom_claims(custom, Duration::from_secs(30));
    claims.issued_at = Some(Duration::from_secs(NOW));
    claims.expires_at = Some(Duration::from_secs(NOW + 30));
    claims.invalid_before = Some(Duration::from_secs(NOW));
    let token = HS256Key::from_bytes(SECRET).authenticate(claims).unwrap();
    let c = verify_token_at(&token, SECRET, NOW * T).unwrap();
    assert_eq!(c.custom.username, "ivy");
}
