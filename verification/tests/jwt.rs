use gis_server::jwt::{
    days_to_secs, expiry_after, minutes_to_secs, AuthConfig, Jwt, RefreshJwt, TokenService,
    MAX_TIMESTAMP, MIN_TIMESTAMP,
};
use gis_server::models::Role;
use jsonwebtoken::{Algorithm, Header, Validation};
use std::collections::HashMap;

fn now() -> i64 {
    std::time::SystemTime::now().duration_since(std::time::UNIX_EPOCH).unwrap().as_secs() as i64
}

#[test]
fn access_claims_at_a_given_time() {
    let j = Jwt::new_at(7, Role::ADMIN, 3600, 1_700_000_000);
    assert_eq!(j.user, 7);
    assert_eq!(j.role, Role::ADMIN);
    assert_eq!(j.start_time, 1_700_000_000);
    assert_eq!(j.exp_time, 1_700_003_600);
    assert_eq!(j.typ, "access");
    assert!(!j.is_expired_at(1_700_003_600));
    assert!(j.is_expired_at(1_700_003_601));
}

#[test]
fn refresh_claims_at_a_given_time() {
    let j = RefreshJwt::new_at(9, 604800, 100, 42);
    assert_eq!((j.user, j.start_time, j.exp_time, j.family), (9, 100, 604900, 42));
    assert_eq!(j.typ, "refresh");
}

#[test]
fn claims_issued_now_read_the_clock() {
    let before = now();
    let j = Jwt::new(1, Role::USER, 60).unwrap();
    let after = now();
    assert!(before <= j.start_time && j.start_time <= after);
    assert_eq!(j.exp_time - j.start_time, 60);
    assert!(!j.is_expired());
    let old = Jwt::new_at(1, Role::USER, 60, 0);
    assert!(old.is_expired());
}

#[test]
fn expiry_beyond_chronos_range_is_refused() {
    assert_eq!(Jwt::new(1, Role::USER, i64::MAX).map(|j| j.user), None);
    assert_eq!(expiry_after(MAX_TIMESTAMP, 1), None);
    assert_eq!(expiry_after(MIN_TIMESTAMP, -1), None);
    assert_eq!(expiry_after(i64::MAX, 1), None);
    assert_eq!(expiry_after(10, 5), Some(15));
}

#[test]
fn refresh_family_is_a_version_4_uuid() {
    let j = RefreshJwt::new(3, 10).unwrap();
    let u = uuid::Uuid::from_u128(j.family);
    assert_eq!(u.get_version_num(), 4);
    assert_eq!(u.get_variant(), uuid::Variant::RFC4122);
    let k = RefreshJwt::new(3, 10).unwrap();
    assert_ne!(j.family, k.family);
}

#[test]
fn lifetimes_in_seconds() {
    assert_eq!(minutes_to_secs(60), 3600);
    assert_eq!(days_to_secs(7), 604800);
    let config = AuthConfig::from_secret("s3cr3t".to_string());
    assert_eq!(config.access_token_ttl_minutes, 60);
    assert_eq!(config.refresh_token_ttl_days, 7);
    let service = TokenService::new(&config);
    assert_eq!(service.access_token_ttl, 3600);
    assert_eq!(service.refresh_token_ttl, 604800);
    let claims = service.access_claims(5, Role::USER).unwrap();
    assert_eq!(claims.exp_time - claims.start_time, 3600);
    let refresh = service.refresh_claims(5).unwrap();
    assert_eq!(refresh.exp_time - refresh.start_time, 604800);
}

#[test]
fn service_keys_are_made_of_the_secret() {
    let service = TokenService::new(&AuthConfig::from_secret("s3cr3t".to_string()));
    let mut claims = HashMap::new();
    claims.insert("exp", 4_000_000_000u64);
    let token = jsonwebtoken::encode(&Header::new(Algorithm::HS256), &claims, &service.encoding_key).unwrap();
    let decoded = jsonwebtoken::decode::<HashMap<String, u64>>(
        &token,
        &jsonwebtoken::DecodingKey::from_secret(b"s3cr3t"),
        &Validation::new(Algorithm::HS256),
    );
    assert!(decoded.is_ok());
    let other = jsonwebtoken::encode(
        &Header::new(Algorithm::HS256),
        &claims,
        &jsonwebtoken::EncodingKey::from_secret(b"other"),
    )
    .unwrap();
    let refused = jsonwebtoken::decode::<HashMap<String, u64>>(
        &other,
        &service.decoding_key,
        &Validation::new(Algorithm::HS256),
    );
    assert!(refused.is_err());
}

#[test]
fn token_pair_carries_the_access_lifetime() {
    let service = TokenService::new(&AuthConfig::from_secret("k".to_string()));
    let p = service.token_pair("a".to_string(), "r".to_string());
    assert_eq!(p.access_token, "a");
    assert_eq!(p.refresh_token, "r");
    assert_eq!(p.token_typ, "Bearer");
    assert_eq!(p.expires_in, 3600);
}

#[test]
fn signing_outcomes() {
    assert_eq!(TokenService::access_token_outcome(Ok("t".to_string())), Ok("t".to_string()));
    assert_eq!(
        TokenService::access_token_outcome(Err(())),
        Err("Encoding of Token failed!".to_string())
    );
    assert_eq!(
        TokenService::refresh_token_outcome(Err(())),
        Err("Encoding of regresh Token failed!".to_string())
    );
}

#[test]
fn access_check() {
    let j = Jwt::new_at(1, Role::USER, 10, 0);
    assert_eq!(TokenService::validate_access_token(Ok(j)).map(|c| c.user), Ok(1));
    assert_eq!(
        TokenService::validate_access_token(Err(())).map(|c| c.user),
        Err("Token Validation failed!".to_string())
    );
    let mut wrong = Jwt::new_at(1, Role::USER, 10, 0);
    wrong.typ = "refresh".to_string();
    assert_eq!(
        TokenService::validate_access_token(Ok(wrong)).map(|c| c.user),
        Err("Token Type is invalid!".to_string())
    );
}

#[test]
fn refresh_check() {
    let j = RefreshJwt::new_at(2, 10, 0, 1);
    assert_eq!(TokenService::validate_refresh_token(Ok(j)).map(|c| c.user), Ok(2));
    assert_eq!(
        TokenService::validate_refresh_token(Err(())).map(|c| c.user),
        Err("Refresh Token Validation failed!".to_string())
    );
    let mut wrong = RefreshJwt::new_at(2, 10, 0, 1);
    wrong.typ = "access".to_string();
    assert_eq!(
        TokenService::validate_refresh_token(Ok(wrong)).map(|c| c.user),
        Err("Refresh Token Type is invalid!".to_string())
    );
}

#[test]
fn token_pair_signs_access_first_and_stops_at_the_first_error() {
    let service = TokenService::new(&AuthConfig::from_secret("k".to_string()));
    let p = service.generate_token_pair(|| Ok("a".to_string()), || Ok("r".to_string())).unwrap();
    assert_eq!((p.access_token.as_str(), p.refresh_token.as_str(), p.expires_in), ("a", "r", 3600));
    let refresh_signed = std::cell::Cell::new(false);
    let r = service.generate_token_pair(
        || Err("Encoding of Token failed!".to_string()),
        || {
            refresh_signed.set(true);
            Ok("r".to_string())
        },
    );
    assert_eq!(r.map(|p| p.access_token), Err("Encoding of Token failed!".to_string()));
    assert!(!refresh_signed.get());
    let r = service.generate_token_pair(|| Ok("a".to_string()), || Err("Encoding of regresh Token failed!".to_string()));
    assert_eq!(r.map(|p| p.access_token), Err("Encoding of regresh Token failed!".to_string()));
}
