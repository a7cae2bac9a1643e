use auth_core::errors::AppError;
use auth_core::token::Claims;
use auth_core::token::SESSION_LIFETIME_SECS;
use auth_core::token::create_jwt;
use auth_core::token::jwt_verify;

const SECRET: &str = "test-signing-secret";
const NOW: i64 = 1_700_000_000;

#[test]
fn issued_token_carries_subject_and_24h_expiration() {
    let token = create_jwt(42, NOW, SECRET).unwrap();
    let claims = jwt_verify(&token, NOW, SECRET).unwrap();
    assert_eq!(claims, Claims { sub: 42, exp: NOW + SESSION_LIFETIME_SECS });
}

#[test]
fn token_still_valid_just_before_expiration() {
    let token = create_jwt(7, NOW, SECRET).unwrap();
    let claims = jwt_verify(&token, NOW + SESSION_LIFETIME_SECS - 1, SECRET).unwrap();
    assert_eq!(claims.sub, 7);
}

#[test]
fn token_expired_after_24_hours_is_unauthorized() {
    let token = create_jwt(7, NOW, SECRET).unwrap();
    assert_eq!(
        jwt_verify(&token, NOW + SESSION_LIFETIME_SECS, SECRET),
        Err(AppError::Unauthorized)
    );
    assert_eq!(
        jwt_verify(&token, NOW + SESSION_LIFETIME_SECS + 3600, SECRET),
        Err(AppError::Unauthorized)
    );
}

#[test]
fn tampered_signature_is_unauthorized() {
    let token = create_jwt(7, NOW, SECRET).unwrap();
    let last = token.chars().last().unwrap();
    let flipped = if last == 'A' { 'B' } else { 'A' };
    let mut tampered: String = token[..token.len() - 1].to_string();
    tampered.push(flipped);
    assert_ne!(token, tampered);
    assert_eq!(jwt_verify(&tampered, NOW, SECRET), Err(AppError::Unauthorized));
}

#[test]
fn token_signed_with_other_secret_is_unauthorized() {
    let token = create_jwt(7, NOW, "another-secret").unwrap();
    assert_eq!(jwt_verify(&token, NOW, SECRET), Err(AppError::Unauthorized));
}

#[test]
fn garbage_token_is_unauthorized() {
    assert_eq!(jwt_verify("", NOW, SECRET), Err(AppError::Unauthorized));
    assert_eq!(jwt_verify("garbage", NOW, SECRET), Err(AppError::Unauthorized));
    assert_eq!(
        jwt_verify("aaaa.bbbb.cccc", NOW, SECRET),
        Err(AppError::Unauthorized)
    );
}
