use auth_gate::dto::Claims;
use auth_gate::errors::MyError;
use auth_gate::service::auth::jwt::{
    claims_from_payload, classify, create, create_at, decode_claims, encode_claims, get_secret,
    is_live, micros_since_epoch, parse_request, timestamp, validate, validate_at, AuthConfig,
    TokenPayload, TokenState, TokenType,
};
use jsonwebtoken::{encode, Algorithm, EncodingKey, Header};
use serde_json::Value;

const ALICE: u128 = 0x0123_4567_89ab_cdef_0123_4567_89ab_cdef;

fn config() -> AuthConfig {
    AuthConfig {
        access_secret: Some("access-secret".to_string()),
        refresh_secret: Some("refresh-secret".to_string()),
        access_ttl: 3_600_000_000,
        refresh_ttl: 432_000_000_000,
    }
}

fn signed(secret: &str, claims: Vec<(&str, Value)>) -> String {
    let mut payload = serde_json::Map::new();
    for (key, value) in claims {
        payload.insert(key.to_string(), value);
    }
    encode(
        &Header::new(Algorithm::HS256),
        &payload,
        &EncodingKey::from_secret(secret.as_bytes()),
    )
    .unwrap()
}

#[test]
fn issued_credential_decodes_to_its_claims() {
    let cfg = config();
    let name = "alice".to_string();
    for class in [TokenType::Access, TokenType::Refresh] {
        let token = create_at(&cfg, &class, &ALICE, &name, 1_000_000, 500).unwrap();
        let claims = decode_claims(&cfg, &class, token).unwrap();
        assert_eq!(claims.user_id, ALICE);
        assert_eq!(claims.username, "alice");
        assert_eq!(claims.exp, 1_000_500);
    }
}

#[test]
fn issued_credential_keeps_any_name_and_subject() {
    let cfg = config();
    let cases: Vec<(u128, &str, u64, u64)> = vec![
        (0, "", 0, 0),
        (u128::MAX, "Zoë \"quoted\" \\ \n tab\t", u64::MAX - 7, 7),
        (1, "名前", 1_700_000_000_000_000, 3_600_000_000),
    ];
    for (id, name, now, ttl) in cases {
        let token = create_at(&cfg, &TokenType::Refresh, &id, &name.to_string(), now, ttl).unwrap();
        let claims = decode_claims(&cfg, &TokenType::Refresh, token).unwrap();
        assert_eq!(claims.user_id, id);
        assert_eq!(claims.username, name);
        assert_eq!(claims.exp, now + ttl);
    }
}

#[test]
fn issued_token_has_three_parts_and_is_no_argument() {
    let cfg = config();
    let name = "alice".to_string();
    let token = create_at(&cfg, &TokenType::Access, &ALICE, &name, 10, 20).unwrap();
    assert_eq!(token.split('.').count(), 3);
    assert_ne!(token, name);
    assert_ne!(token, "access-secret");
    let again = create_at(&cfg, &TokenType::Access, &ALICE, &name, 10, 20).unwrap();
    assert_eq!(token, again);
}

#[test]
fn credential_of_one_class_fails_under_the_other() {
    let cfg = config();
    let name = "bob".to_string();
    for id in [0u128, 7, ALICE, u128::MAX] {
        let access = create_at(&cfg, &TokenType::Access, &id, &name, 10, 20).unwrap();
        let refresh = create_at(&cfg, &TokenType::Refresh, &id, &name, 10, 20).unwrap();
        assert_eq!(
            decode_claims(&cfg, &TokenType::Refresh, access).err(),
            Some(MyError::DecodeError)
        );
        assert_eq!(
            decode_claims(&cfg, &TokenType::Access, refresh).err(),
            Some(MyError::DecodeError)
        );
    }
}

#[test]
fn create_expires_after_the_time_of_the_call() {
    let cfg = config();
    let before = timestamp();
    let token = create(&cfg, &TokenType::Access, &ALICE, &"alice".to_string(), 1_000).unwrap();
    let after = timestamp();
    let claims = decode_claims(&cfg, &TokenType::Access, token).unwrap();
    assert_eq!(claims.user_id, ALICE);
    assert!(before + 1_000 <= claims.exp);
    assert!(claims.exp <= after + 1_000);
}

#[test]
fn timestamp_is_in_microseconds() {
    let now = timestamp();
    assert!(now > 1_600_000_000_000_000);
    assert!(now < 10_000_000_000_000_000);
    assert!(now <= i64::MAX as u64);
}

#[test]
fn reading_before_the_epoch_counts_as_the_epoch() {
    assert_eq!(micros_since_epoch(0), 0);
    assert_eq!(micros_since_epoch(1), 1);
    assert_eq!(micros_since_epoch(1_700_000_000_000_000), 1_700_000_000_000_000);
    assert_eq!(micros_since_epoch(i64::MAX), 9_223_372_036_854_775_807);
    assert_eq!(micros_since_epoch(-1), 0);
    assert_eq!(micros_since_epoch(i64::MIN), 0);
}

#[test]
fn signing_fails_without_a_secret() {
    let mut cfg = config();
    cfg.access_secret = None;
    let name = "alice".to_string();
    assert_eq!(
        create_at(&cfg, &TokenType::Access, &ALICE, &name, 1, 1).err(),
        Some(MyError::SigningError)
    );
    assert_eq!(
        create(&cfg, &TokenType::Access, &ALICE, &name, 1).err(),
        Some(MyError::SigningError)
    );
    assert!(create_at(&cfg, &TokenType::Refresh, &ALICE, &name, 1, 1).is_ok());
}

#[test]
fn signing_fails_where_the_expiry_does_not_fit() {
    let cfg = config();
    let name = "alice".to_string();
    assert_eq!(
        create_at(&cfg, &TokenType::Access, &ALICE, &name, u64::MAX, 1).err(),
        Some(MyError::SigningError)
    );
    assert!(create_at(&cfg, &TokenType::Access, &ALICE, &name, u64::MAX, 0).is_ok());
}

#[test]
fn secret_of_each_class() {
    let mut cfg = config();
    assert_eq!(get_secret(&cfg, &TokenType::Access), Ok("access-secret".to_string()));
    assert_eq!(get_secret(&cfg, &TokenType::Refresh), Ok("refresh-secret".to_string()));
    cfg.refresh_secret = None;
    assert_eq!(get_secret(&cfg, &TokenType::Refresh), Err(MyError::SigningError));
}

#[test]
fn decoding_fails_without_a_secret() {
    let cfg = config();
    let token = create_at(&cfg, &TokenType::Access, &ALICE, &"alice".to_string(), 1, 1).unwrap();
    let mut bare = config();
    bare.access_secret = None;
    assert_eq!(
        decode_claims(&bare, &TokenType::Access, token).err(),
        Some(MyError::DecodeError)
    );
}

#[test]
fn decoding_rejects_what_is_no_token() {
    let cfg = config();
    for text in ["", "abc", "a.b.c", " ", "..", "eyJhbGciOiJIUzI1NiJ9.e30.AAAA"] {
        assert_eq!(
            decode_claims(&cfg, &TokenType::Access, text.to_string()).err(),
            Some(MyError::DecodeError)
        );
    }
}

#[test]
fn decoding_rejects_a_changed_token() {
    let cfg = config();
    let token = create_at(&cfg, &TokenType::Access, &ALICE, &"alice".to_string(), 1, 1).unwrap();
    let mut changed = token.clone();
    let last = changed.pop().unwrap();
    changed.push(if last == 'A' { 'B' } else { 'A' });
    assert_eq!(
        decode_claims(&cfg, &TokenType::Access, changed).err(),
        Some(MyError::DecodeError)
    );
    assert!(decode_claims(&cfg, &TokenType::Access, token).is_ok());
}

#[test]
fn decoding_ignores_the_expiry() {
    let cfg = config();
    let token = create_at(&cfg, &TokenType::Access, &ALICE, &"alice".to_string(), 0, 1).unwrap();
    let claims = decode_claims(&cfg, &TokenType::Access, token).unwrap();
    assert_eq!(claims.exp, 1);
}

#[test]
fn decoding_reads_a_payload_written_elsewhere() {
    let cfg = config();
    let token = signed(
        "access-secret",
        vec![
            ("user_id", Value::from("01234567-89ab-cdef-0123-456789abcdef")),
            ("username", Value::from("alice")),
            ("exp", Value::from(42u64)),
            ("extra", Value::from(true)),
        ],
    );
    let claims = decode_claims(&cfg, &TokenType::Access, token).unwrap();
    assert_eq!(claims.user_id, ALICE);
    assert_eq!(claims.username, "alice");
    assert_eq!(claims.exp, 42);
}

#[test]
fn decoding_rejects_a_payload_that_lacks_a_claim() {
    let cfg = config();
    let id = Value::from("01234567-89ab-cdef-0123-456789abcdef");
    let name = Value::from("alice");
    let exp = Value::from(42u64);
    let payloads = vec![
        vec![("username", name.clone()), ("exp", exp.clone())],
        vec![("user_id", id.clone()), ("exp", exp.clone())],
        vec![("user_id", id.clone()), ("username", name.clone())],
        vec![("user_id", Value::from("not-a-uuid")), ("username", name.clone()), ("exp", exp.clone())],
        vec![("user_id", id.clone()), ("username", Value::from(5u64)), ("exp", exp.clone())],
        vec![("user_id", id.clone()), ("username", name.clone()), ("exp", Value::from(-1i64))],
    ];
    for payload in payloads {
        let token = signed("access-secret", payload);
        assert_eq!(
            decode_claims(&cfg, &TokenType::Access, token).err(),
            Some(MyError::DecodeError)
        );
    }
}

#[test]
fn claims_need_all_three_parts() {
    let full = TokenPayload { user_id: Some(3), username: Some("carol".to_string()), exp: Some(9) };
    let claims = claims_from_payload(full).unwrap();
    assert_eq!((claims.user_id, claims.username.as_str(), claims.exp), (3, "carol", 9));
    let parts = [
        TokenPayload { user_id: None, username: Some("carol".to_string()), exp: Some(9) },
        TokenPayload { user_id: Some(3), username: None, exp: Some(9) },
        TokenPayload { user_id: Some(3), username: Some("carol".to_string()), exp: None },
        TokenPayload { user_id: None, username: None, exp: None },
    ];
    for payload in parts {
        assert_eq!(claims_from_payload(payload).err(), Some(MyError::DecodeError));
    }
}

#[test]
fn claims_are_built_from_their_parts() {
    let claims = Claims::new(&ALICE, &"alice".to_string(), 77);
    assert_eq!(claims.user_id, ALICE);
    assert_eq!(claims.username, "alice");
    assert_eq!(claims.exp, 77);
}

#[test]
fn live_strictly_before_the_expiry() {
    let claims = Claims::new(&ALICE, &"alice".to_string(), 1_000);
    assert!(is_live(&claims, 999));
    assert!(!is_live(&claims, 1_000));
    assert!(!is_live(&claims, 1_001));
    assert!(is_live(&claims, 0));
    assert!(!is_live(&claims, u64::MAX));
    let never = Claims::new(&ALICE, &"alice".to_string(), 0);
    assert!(!is_live(&never, 0));
}

#[test]
fn classify_tells_live_expired_and_invalid() {
    let claims = || Claims::new(&ALICE, &"alice".to_string(), 1_000);
    assert!(matches!(classify(Ok(claims()), 999), TokenState::Live(c) if c.exp == 1_000));
    assert!(matches!(classify(Ok(claims()), 1_000), TokenState::Expired(c) if c.user_id == ALICE));
    assert!(matches!(classify(Ok(claims()), 1_001), TokenState::Expired(_)));
    assert!(matches!(classify(Err(MyError::DecodeError), 0), TokenState::Invalid));
}

#[test]
fn validate_at_follows_the_expiry() {
    let cfg = config();
    let token = create_at(&cfg, &TokenType::Access, &ALICE, &"alice".to_string(), 100, 50).unwrap();
    assert!(matches!(
        validate_at(&cfg, &TokenType::Access, &token, 149),
        TokenState::Live(c) if c.user_id == ALICE && c.username == "alice" && c.exp == 150
    ));
    assert!(matches!(
        validate_at(&cfg, &TokenType::Access, &token, 150),
        TokenState::Expired(c) if c.exp == 150
    ));
    assert!(matches!(validate_at(&cfg, &TokenType::Access, &token, 151), TokenState::Expired(_)));
    assert!(matches!(validate_at(&cfg, &TokenType::Refresh, &token, 149), TokenState::Invalid));
    assert!(matches!(validate_at(&cfg, &TokenType::Access, "junk", 0), TokenState::Invalid));
}

#[test]
fn validate_reads_the_clock() {
    let cfg = config();
    let name = "alice".to_string();
    let fresh = create(&cfg, &TokenType::Access, &ALICE, &name, 3_600_000_000).unwrap();
    assert!(matches!(validate(&cfg, &TokenType::Access, &fresh), TokenState::Live(_)));
    let stale = create_at(&cfg, &TokenType::Access, &ALICE, &name, 0, 1).unwrap();
    assert!(matches!(validate(&cfg, &TokenType::Access, &stale), TokenState::Expired(_)));
    assert!(matches!(validate(&cfg, &TokenType::Refresh, &fresh), TokenState::Invalid));
}

#[test]
fn header_yields_what_stands_behind_the_prefix() {
    assert_eq!(parse_request(Some("Bearer abc.def"), "Bearer "), Ok("abc.def".to_string()));
    assert_eq!(parse_request(Some("Bearer abc"), "Bearer"), Ok(" abc".to_string()));
    assert_eq!(parse_request(Some("Bearer "), "Bearer "), Ok(String::new()));
    assert_eq!(parse_request(Some("anything"), ""), Ok("anything".to_string()));
    assert_eq!(parse_request(Some("Ключ значение"), "Ключ "), Ok("значение".to_string()));
}

#[test]
fn header_without_the_prefix_is_refused() {
    assert_eq!(parse_request(None, "Bearer "), Err(MyError::AuthError));
    assert_eq!(parse_request(Some("Basic abc"), "Bearer "), Err(MyError::AuthError));
    assert_eq!(parse_request(Some("Bear"), "Bearer "), Err(MyError::AuthError));
    assert_eq!(parse_request(Some("bearer abc"), "Bearer "), Err(MyError::AuthError));
    assert_eq!(parse_request(Some(""), "Bearer "), Err(MyError::AuthError));
    assert_eq!(parse_request(Some(" Bearer abc"), "Bearer "), Err(MyError::AuthError));
}

#[test]
fn encoded_claims_decode_to_themselves() {
    let cfg = config();
    let claims = Claims::new(&ALICE, &"alice".to_string(), 123_456);
    for class in [TokenType::Access, TokenType::Refresh] {
        let token = encode_claims(&cfg, &class, &claims).unwrap();
        let back = decode_claims(&cfg, &class, token.clone()).unwrap();
        assert_eq!(back.user_id, claims.user_id);
        assert_eq!(back.username, claims.username);
        assert_eq!(back.exp, claims.exp);
        assert_eq!(create_at(&cfg, &class, &ALICE, &"alice".to_string(), 123_000, 456), Ok(token));
    }
    let mut bare = config();
    bare.refresh_secret = None;
    assert_eq!(
        encode_claims(&bare, &TokenType::Refresh, &claims).err(),
        Some(MyError::SigningError)
    );
}

#[test]
fn default_configuration_has_an_hour_and_five_days() {
    let cfg = AuthConfig::new(Some("a".to_string()), None);
    assert_eq!(cfg.access_secret, Some("a".to_string()));
    assert_eq!(cfg.refresh_secret, None);
    assert_eq!(cfg.access_ttl, 3_600_000_000);
    assert_eq!(cfg.refresh_ttl, 432_000_000_000);
    assert_eq!(auth_gate::ACCESS_TOKEN_EXP, 3_600_000_000);
    assert_eq!(auth_gate::REFRESH_TOKEN_EXP, 432_000_000_000);
}

fn next(state: &mut u64) -> u64 {
    *state = state.wrapping_mul(6364136223846793005).wrapping_add(1442695040888963407);
    *state >> 11
}

fn text(state: &mut u64) -> String {
    let len = next(state) % 12;
    (0..len).filter_map(|_| char::from_u32((next(state) % 0x3000) as u32)).collect()
}

#[test]
fn round_trip_holds_for_many_subjects_secrets_and_times() {
    let mut state = 42u64;
    for round in 0..400 {
        let cfg = AuthConfig {
            access_secret: Some(text(&mut state)),
            refresh_secret: Some(text(&mut state) + "r"),
            access_ttl: 1,
            refresh_ttl: 1,
        };
        let class = if round % 2 == 0 { TokenType::Access } else { TokenType::Refresh };
        let id = ((next(&mut state) as u128) << 64) | next(&mut state) as u128;
        let name = text(&mut state);
        let now = next(&mut state);
        let ttl = next(&mut state);
        let token = create_at(&cfg, &class, &id, &name, now, ttl).unwrap();
        let claims = decode_claims(&cfg, &class, token).unwrap();
        assert_eq!(claims.user_id, id);
        assert_eq!(claims.username, name);
        assert_eq!(claims.exp, now + ttl);
    }
}

#[test]
fn classes_with_one_secret_are_not_told_apart() {
    let cfg = AuthConfig {
        access_secret: Some("shared".to_string()),
        refresh_secret: Some("shared".to_string()),
        access_ttl: 1,
        refresh_ttl: 1,
    };
    let token = create_at(&cfg, &TokenType::Access, &ALICE, &"alice".to_string(), 1, 1).unwrap();
    let claims = decode_claims(&cfg, &TokenType::Refresh, token).unwrap();
    assert_eq!(claims.user_id, ALICE);
}

#[test]
fn secrets_that_differ_by_trailing_zero_bytes_are_one_key() {
    let cfg = AuthConfig {
        access_secret: Some("key".to_string()),
        refresh_secret: Some("key\0\0".to_string()),
        access_ttl: 1,
        refresh_ttl: 1,
    };
    let token = create_at(&cfg, &TokenType::Access, &ALICE, &"alice".to_string(), 1, 1).unwrap();
    assert!(decode_claims(&cfg, &TokenType::Refresh, token).is_ok());
}

#[test]
fn signing_succeeds_for_any_secret() {
    let long = "k".repeat(10_000);
    for secret in ["", "s", "sëcret \u{1F511}", "\0", long.as_str()] {
        let cfg = AuthConfig {
            access_secret: Some(secret.to_string()),
            refresh_secret: None,
            access_ttl: 1,
            refresh_ttl: 1,
        };
        let token = create_at(&cfg, &TokenType::Access, &ALICE, &"alice".to_string(), 5, 6).unwrap();
        let claims = decode_claims(&cfg, &TokenType::Access, token).unwrap();
        assert_eq!((claims.user_id, claims.exp), (ALICE, 11));
        assert!(create(&cfg, &TokenType::Access, &ALICE, &"alice".to_string(), 3_600_000_000).is_ok());
    }
}

#[test]
fn clock_leaves_room_for_every_expiry_that_fits() {
    let cfg = config();
    let room = u64::MAX - i64::MAX as u64;
    let name = "alice".to_string();
    assert!(timestamp() <= i64::MAX as u64);
    assert!(create(&cfg, &TokenType::Access, &ALICE, &name, room).is_ok());
    assert!(create(&cfg, &TokenType::Refresh, &ALICE, &name, 0).is_ok());
    assert_eq!(
        create(&cfg, &TokenType::Access, &ALICE, &name, u64::MAX).err(),
        Some(MyError::SigningError)
    );
    let far = create_at(&cfg, &TokenType::Access, &ALICE, &name, i64::MAX as u64, 1).unwrap();
    assert!(matches!(validate(&cfg, &TokenType::Access, &far), TokenState::Live(_)));
}
