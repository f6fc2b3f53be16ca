use auth_core::auth::{AuthService, CredentialRecord, TokenError};
use auth_core::cache::MemoryCache;
use auth_core::revocation::{check_invalidation, invalidation_key, record_invalidation, InvalidationReason};
use auth_core::claims::{claims_json, parse_claims_json, UserJwtPayload, UserRole, TOKEN_LIFETIME};
use auth_core::error::ApiError;
use jsonwebtoken::{Algorithm, DecodingKey, EncodingKey, Header};
use ring::signature::{Ed25519KeyPair, KeyPair};
use std::time::{SystemTime, UNIX_EPOCH};

const BASE64: &[u8] = b"ABCDEFGHIJKLMNOPQRSTUVWXYZabcdefghijklmnopqrstuvwxyz0123456789+/";

fn base64(bytes: &[u8]) -> String {
    let mut out = String::new();
    for chunk in bytes.chunks(3) {
        let b = [chunk[0], *chunk.get(1).unwrap_or(&0), *chunk.get(2).unwrap_or(&0)];
        let n = ((b[0] as u32) << 16) | ((b[1] as u32) << 8) | b[2] as u32;
        for i in 0..4 {
            if i <= chunk.len() {
                out.push(BASE64[((n >> (18 - 6 * i)) & 63) as usize] as char);
            } else {
                out.push('=');
            }
        }
    }
    out
}

/// A fresh Ed25519 key pair: the signing key as PKCS#8 PEM text and the
/// verification key.
fn key_pair() -> (Vec<u8>, DecodingKey) {
    let rng = ring::rand::SystemRandom::new();
    let pkcs8 = Ed25519KeyPair::generate_pkcs8(&rng).unwrap();
    let pair = Ed25519KeyPair::from_pkcs8(pkcs8.as_ref()).unwrap();
    let label = "PRIVATE KEY";
    let pem = format!("-----BEGIN {}-----\n{}\n-----END {}-----\n", label, base64(pkcs8.as_ref()), label);
    (pem.into_bytes(), DecodingKey::from_ed_der(pair.public_key().as_ref()))
}

fn service() -> AuthService {
    let (pem, dec) = key_pair();
    AuthService::new(pem, dec)
}

#[test]
fn unreadable_signing_key_is_internal_error() {
    let (_, dec) = key_pair();
    let svc = AuthService::new(b"not a key".to_vec(), dec);
    assert_eq!(
        svc.generate_token("id".to_string(), "e".to_string(), "u".to_string(), UserRole::Common, now()),
        Err(ApiError::InternalServerError)
    );
}

#[test]
fn issued_token_header_is_eddsa() {
    let svc = service();
    let token = svc
        .generate_token("id".to_string(), "e".to_string(), "u".to_string(), UserRole::Common, now())
        .unwrap();
    assert_eq!(jsonwebtoken::decode_header(&token).unwrap().alg, Algorithm::EdDSA);
    assert_eq!(token.split('.').count(), 3);
}

fn now() -> u64 {
    SystemTime::now().duration_since(UNIX_EPOCH).unwrap().as_secs()
}

fn sample_claims() -> UserJwtPayload {
    UserJwtPayload {
        sub: "abcdefghijklmnopqr".to_string(),
        username: "al\"ice\\ \n\t\u{1}é✓".to_string(),
        email: "alice@example.com".to_string(),
        exp: 1_700_003_600,
        iat: 1_700_000_000,
        role: UserRole::Publisher,
    }
}

#[test]
fn claims_text_is_exact_json() {
    let c = UserJwtPayload {
        sub: "id1".to_string(),
        username: "bob".to_string(),
        email: "b@x.io".to_string(),
        exp: 3601,
        iat: 1,
        role: UserRole::Admin,
    };
    assert_eq!(
        claims_json(&c),
        "{\"sub\":\"id1\",\"username\":\"bob\",\"email\":\"b@x.io\",\"exp\":3601,\"iat\":1,\"role\":\"ADMIN\"}"
    );
}

#[test]
fn claims_round_trip_with_escapes() {
    let c = sample_claims();
    let text = claims_json(&c);
    assert!(text.contains("al\\\"ice\\\\ \\n\\t\\u0001é✓"));
    assert_eq!(parse_claims_json(&text), Some(c.clone()));
    let v: serde_json::Value = serde_json::from_str(&text).unwrap();
    assert_eq!(v["username"].as_str(), Some(c.username.as_str()));
    assert_eq!(v["exp"].as_u64(), Some(c.exp));
    assert_eq!(v["role"].as_str(), Some("PUBLISHER"));
}

#[test]
fn claims_reader_refuses_other_text() {
    let text = claims_json(&sample_claims());
    assert_eq!(parse_claims_json(&text[..text.len() - 1]), None);
    assert_eq!(parse_claims_json(&format!("{} ", text)), None);
    assert_eq!(parse_claims_json(&text.replace("PUBLISHER", "OWNER")), None);
    assert_eq!(parse_claims_json("{\"sub\":\"a\",\"username\":\"b\",\"email\":\"c\",\"exp\":18446744073709551616,\"iat\":1,\"role\":\"ADMIN\"}"), None);
    assert_eq!(parse_claims_json(""), None);
}

#[test]
fn new_claims_live_one_hour() {
    let c = UserJwtPayload::new("u".to_string(), "n".to_string(), "e".to_string(), None, 100);
    assert_eq!(c.iat, 100);
    assert_eq!(c.exp, 100 + TOKEN_LIFETIME);
    assert_eq!(c.exp, 3700);
    assert_eq!(c.role, UserRole::Common);
}

#[test]
fn authenticate_then_verify_gives_subject() {
    let svc = service();
    let hash = bcrypt::hash("correct horse", 4).unwrap();
    let record = CredentialRecord {
        id: "abcdefghijklmnopqr".to_string(),
        username: "alice".to_string(),
        password: hash,
        role: UserRole::Admin,
    };
    let t = now();
    let token = svc.auth_user("alice@example.com".to_string(), "correct horse".to_string(), Some(record), t).unwrap();
    let claims = svc.decode_token(&token, t).unwrap();
    assert_eq!(claims.sub, "abcdefghijklmnopqr");
    assert_eq!(claims.email, "alice@example.com");
    assert_eq!(claims.username, "alice");
    assert_eq!(claims.role, UserRole::Admin);
    assert_eq!(claims.iat, t);
    assert_eq!(claims.exp, t + 3600);
}

#[test]
fn authenticate_refuses_bad_credentials() {
    let svc = service();
    let hash = bcrypt::hash("correct horse", 4).unwrap();
    let record = CredentialRecord {
        id: "abcdefghijklmnopqr".to_string(),
        username: "alice".to_string(),
        password: hash,
        role: UserRole::Common,
    };
    let t = now();
    assert_eq!(
        svc.auth_user("a@b.c".to_string(), "wrong".to_string(), Some(record.clone()), t),
        Err(ApiError::UserUnauthorized)
    );
    assert_eq!(svc.auth_user("a@b.c".to_string(), "x".to_string(), None, t), Err(ApiError::UserUnauthorized));
    let broken = CredentialRecord { password: "not a hash".to_string(), ..record };
    assert_eq!(
        svc.auth_user("a@b.c".to_string(), "correct horse".to_string(), Some(broken), t),
        Err(ApiError::InternalServerError)
    );
}

#[test]
fn token_expires_after_lifetime() {
    let svc = service();
    let t0 = now();
    let token = svc
        .generate_token("id".to_string(), "e@x".to_string(), "u".to_string(), UserRole::Common, t0)
        .unwrap();
    assert!(svc.decode_token(&token, t0).is_ok());
    assert!(svc.decode_token(&token, t0 + 3599).is_ok());
    assert_eq!(svc.decode_token(&token, t0 + 3600), Err(ApiError::ExpiredAuthToken));
    assert_eq!(svc.verify_signed(&token, t0 + 7200), Err(TokenError::Expired));
}

#[test]
fn token_expired_by_the_clock_is_expired() {
    let svc = service();
    let t0 = now() - 10_000;
    let token = svc
        .generate_token("id".to_string(), "e@x".to_string(), "u".to_string(), UserRole::Common, t0)
        .unwrap();
    assert_eq!(svc.decode_token(&token, t0), Err(ApiError::ExpiredAuthToken));
}

#[test]
fn flipped_signature_bytes_are_malformed() {
    let svc = service();
    let t = now();
    let token = svc
        .generate_token("id".to_string(), "e@x".to_string(), "u".to_string(), UserRole::Common, t)
        .unwrap();
    let sig_start = token.rfind('.').unwrap() + 1;
    let bytes = token.as_bytes();
    for i in sig_start..bytes.len() {
        let mut tampered = bytes.to_vec();
        tampered[i] = if tampered[i] == b'A' { b'B' } else { b'A' };
        let tampered = String::from_utf8(tampered).unwrap();
        assert_eq!(svc.verify_signed(&tampered, t), Err(TokenError::Malformed), "byte {}", i);
    }
    assert_eq!(svc.verify_signed(&token, t).map(|c| c.sub), Ok("id".to_string()));
}

#[test]
fn token_of_another_key_is_malformed() {
    let svc = service();
    let other = service();
    let t = now();
    let token = other
        .generate_token("id".to_string(), "e@x".to_string(), "u".to_string(), UserRole::Common, t)
        .unwrap();
    assert_eq!(svc.verify_signed(&token, t), Err(TokenError::Malformed));
    assert_eq!(svc.decode_token(&token, t), Err(ApiError::InvalidAuthToken));
}

#[test]
fn other_algorithm_is_refused() {
    let svc = service();
    let t = now();
    let claims = UserJwtPayload::new("id".to_string(), "u".to_string(), "e".to_string(), None, t);
    let raw = serde_json::value::RawValue::from_string(claims_json(&claims)).unwrap();
    let forged = jsonwebtoken::encode(
        &Header::new(Algorithm::HS256),
        &raw,
        &EncodingKey::from_secret(b"an hmac secret of some length"),
    )
    .unwrap();
    assert_eq!(svc.verify_signed(&forged, t), Err(TokenError::AlgorithmMismatch));
    assert_eq!(svc.decode_token(&forged, t), Err(ApiError::InvalidAuthToken));
}

#[test]
fn garbage_token_is_malformed() {
    let svc = service();
    let t = now();
    assert_eq!(svc.verify_signed("abc", t), Err(TokenError::Malformed));
    assert_eq!(svc.verify_signed("", t), Err(TokenError::Malformed));
    assert_eq!(svc.verify_signed("a.b.c", t), Err(TokenError::Malformed));
}

#[test]
fn token_error_maps_to_client_error() {
    assert_eq!(TokenError::Expired.to_api_error(), ApiError::ExpiredAuthToken);
    assert_eq!(TokenError::Malformed.to_api_error(), ApiError::InvalidAuthToken);
    assert_eq!(TokenError::AlgorithmMismatch.to_api_error(), ApiError::InvalidAuthToken);
}

#[test]
fn claims_round_trip_at_the_edges() {
    let c = UserJwtPayload {
        sub: String::new(),
        username: String::new(),
        email: String::new(),
        exp: u64::MAX,
        iat: 0,
        role: UserRole::Common,
    };
    let text = claims_json(&c);
    assert_eq!(
        text,
        "{\"sub\":\"\",\"username\":\"\",\"email\":\"\",\"exp\":18446744073709551615,\"iat\":0,\"role\":\"COMMON\"}"
    );
    assert_eq!(parse_claims_json(&text), Some(c));
}

#[test]
fn issuing_at_the_end_of_time_is_internal_error() {
    let svc = service();
    assert_eq!(
        svc.generate_token("id".to_string(), "e".to_string(), "u".to_string(), UserRole::Common, u64::MAX),
        Err(ApiError::InternalServerError)
    );
}

#[test]
fn revoked_token_is_refused_end_to_end() {
    let svc = service();
    let t = now();
    let token = svc
        .generate_token("subj".to_string(), "e@x".to_string(), "u".to_string(), UserRole::Common, t)
        .unwrap();
    let mut cache = MemoryCache::new();
    let claims = svc.decode_token(&token, t).unwrap();
    assert_eq!(check_invalidation(claims.clone(), Ok(cache.get(&invalidation_key(&claims.sub), t))), Ok(claims.clone()));
    let w = record_invalidation("subj", InvalidationReason::PasswordChanged, t);
    cache.set_ttl(w.key, w.value, w.ttl, t);
    assert_eq!(
        check_invalidation(claims.clone(), Ok(cache.get(&invalidation_key(&claims.sub), t))),
        Err(ApiError::UserUnderTokenInvalidation(InvalidationReason::PasswordChanged))
    );
}

#[test]
fn claims_reader_takes_only_the_written_spelling() {
    let good = "{\"sub\":\"a\\u0001\",\"username\":\"b\\n\",\"email\":\"c\",\"exp\":10,\"iat\":0,\"role\":\"ADMIN\"}";
    let c = parse_claims_json(good).unwrap();
    assert_eq!(c.sub, "a\u{1}");
    assert_eq!(claims_json(&c), good);
    assert_eq!(parse_claims_json(&good.replace("\\n", "\\u000a")), None);
    assert_eq!(parse_claims_json(&good.replace("\"c\"", "\"\\u0063\"")), None);
    assert_eq!(parse_claims_json(&good.replace("\"exp\":10", "\"exp\":010")), None);
    assert_eq!(parse_claims_json(&good.replace("\\u0001", "\\u0001".to_uppercase().as_str())), None);
}
