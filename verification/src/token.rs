use vstd::prelude::*;

use crate::errors::AppError;
use crate::text::is_trimmed;

verus! {

/// The fixed session lifetime: 24 hours, in seconds.
pub const SESSION_LIFETIME_SECS: i64 = 86400;

/// The signed payload proving a user's identity for one session:
/// the subject (user id) and the absolute expiration timestamp
/// (unix seconds). Immutable once minted; never stored server-side.
#[derive(Debug, Clone, Copy, PartialEq, Eq, Structural)]
pub struct Claims {
    pub sub: u64,
    pub exp: i64,
}

/// The encoded session token that signing the claims `(sub, exp)` under
/// `secret` produces: a function of the claims and the secret alone.
pub uninterp spec fn jwt_token_of(sub: u64, exp: i64, secret: Seq<char>) -> Seq<char>;

/// The claims that `token` carries under `secret`: `Some((sub, exp))`
/// exactly when the token's signature verifies against the secret and the
/// payload holds those two claims, `None` otherwise. A function of the
/// token and the secret alone (expiration is judged separately).
pub uninterp spec fn jwt_decoded(token: Seq<char>, secret: Seq<char>) -> Option<(u64, i64)>;

/// Whether `jsonwebtoken::encode` accepts the claims `(sub, exp)` under
/// `secret`: the success condition of signing. With the HS256 backend
/// this build locks in, signing these flat claims is not expected to
/// refuse any input; success is still stated as this named condition
/// rather than promised outright.
pub uninterp spec fn jwt_encodable(sub: u64, exp: i64, secret: Seq<char>) -> bool;

/// Relies on `jsonwebtoken::encode` with the default HS256 header: the
/// claims go out under the standard `sub` and `exp` names, whether
/// signing succeeds and the token it yields are deterministic functions
/// of the claims and secret, and `jsonwebtoken::decode` of that token
/// under the same secret hands the same `sub` and `exp` claims back. The
/// token text is three base64url segments joined by dots, so it carries
/// no whitespace and trimming it changes nothing.
#[verifier::external_body]
fn jwt_encode(sub: u64, exp: i64, secret: &str) -> (r: Option<String>)
    ensures
        r is Some <==> jwt_encodable(sub, exp, secret@),
        r matches Some(t) ==> t@ == jwt_token_of(sub, exp, secret@) && jwt_decoded(t@, secret@)
            == Some((sub, exp)) && is_trimmed(t@),
{
    let mut claims = serde_json::Map::new();
    claims.insert("sub".to_owned(), serde_json::Value::from(sub));
    claims.insert("exp".to_owned(), serde_json::Value::from(exp));
    let key = jsonwebtoken::EncodingKey::from_secret(secret.as_bytes());
    let header = jsonwebtoken::Header::default();
    match jsonwebtoken::encode(&header, &serde_json::Value::Object(claims), &key) {
        Ok(t) => Some(t),
        Err(_) => None,
    }
}

/// Relies on `jsonwebtoken::decode` with expiration checking switched
/// off: the outcome is a function of the token and the secret alone. It
/// hands back the `sub` and `exp` claims of exactly those tokens whose
/// HS256 signature verifies under the secret and whose payload is an
/// object carrying both claims in range (a stray `aud` claim also fails
/// the default validation); every other token is `None`.
#[verifier::external_body]
fn jwt_decode(token: &str, secret: &str) -> (r: Option<(u64, i64)>)
    ensures
        r == jwt_decoded(token@, secret@),
{
    let mut validation = jsonwebtoken::Validation::new(jsonwebtoken::Algorithm::HS256);
    validation.validate_exp = false;
    validation.required_spec_claims.clear();
    let key = jsonwebtoken::DecodingKey::from_secret(secret.as_bytes());
    let data = match jsonwebtoken::decode::<serde_json::Value>(token, &key, &validation) {
        Ok(d) => d,
        Err(_) => return None,
    };
    let sub = data.claims.get("sub").and_then(|v| v.as_u64());
    let exp = data.claims.get("exp").and_then(|v| v.as_i64());
    match (sub, exp) {
        (Some(s), Some(e)) => Some((s, e)),
        _ => None,
    }
}

/// Issues the session token for `user_id` at issuance time `now`: the
/// claims carry expiration `now + 24h` and are signed with the
/// process-wide secret. Issuance succeeds exactly when the signing
/// backend accepts the claims — with this build's HS256 backend, every
/// call; a refusal is reported as a configuration fault. The token text
/// carries no surrounding whitespace, so the gates' trimming leaves it
/// unchanged.
pub fn create_jwt(user_id: u64, now: i64, secret: &str) -> (r: Result<String, AppError>)
    requires
        now <= i64::MAX - SESSION_LIFETIME_SECS,
    ensures
        r is Ok <==> jwt_encodable(user_id, (now + SESSION_LIFETIME_SECS) as i64, secret@),
        r matches Ok(t) ==> ({
            let exp = (now + SESSION_LIFETIME_SECS) as i64;
            &&& t@ == jwt_token_of(user_id, exp, secret@)
            &&& jwt_decoded(t@, secret@) == Some((user_id, exp))
            &&& is_trimmed(t@)
        }),
        r matches Err(e) ==> e == AppError::ConfigError,
{
    let exp = now + SESSION_LIFETIME_SECS;
    match jwt_encode(user_id, exp, secret) {
        Some(t) => Ok(t),
        None => Err(AppError::ConfigError),
    }
}

/// What verifying a token at time `now` reports: the claims when the
/// signature verifies and the expiration is strictly in the future, and
/// `Unauthorized` otherwise — a token is valid or rejected wholesale.
pub open spec fn jwt_verify_spec(token: Seq<char>, secret: Seq<char>, now: i64) -> Result<
    Claims,
    AppError,
> {
    match jwt_decoded(token, secret) {
        Some((sub, exp)) => if exp > now {
            Ok(Claims { sub, exp })
        } else {
            Err(AppError::Unauthorized)
        },
        None => Err(AppError::Unauthorized),
    }
}

/// Parses and checks a session token. Validity is a pure function of the
/// token, the secret and the clock: the signature must verify and the
/// expiration must be strictly in the future; every other token — however
/// it is malformed — is rejected as `Unauthorized`.
pub fn jwt_verify(token: &str, now: i64, secret: &str) -> (r: Result<Claims, AppError>)
    ensures
        r == jwt_verify_spec(token@, secret@, now),
{
    match jwt_decode(token, secret) {
        Some((sub, exp)) => {
            if exp > now {
                Ok(Claims { sub, exp })
            } else {
                Err(AppError::Unauthorized)
            }
        },
        None => Err(AppError::Unauthorized),
    }
}

/// A token issued for `sub` at `now_issue` verifies at any time strictly
/// before its expiration, and the verified claims carry the issuing
/// subject and an expiration exactly 24 hours after issuance.
pub proof fn lemma_issued_token_verifies(
    token: Seq<char>,
    secret: Seq<char>,
    sub: u64,
    now_issue: i64,
    now_check: i64,
)
    requires
        now_issue <= i64::MAX - SESSION_LIFETIME_SECS,
        jwt_decoded(token, secret) == Some((sub, (now_issue + SESSION_LIFETIME_SECS) as i64)),
        now_check < now_issue + SESSION_LIFETIME_SECS,
    ensures
        jwt_verify_spec(token, secret, now_check) == Ok::<Claims, AppError>(
            Claims { sub, exp: (now_issue + SESSION_LIFETIME_SECS) as i64 },
        ),
{
}

/// A token verified at or after its expiration — in particular more than
/// 24 hours after issuance — is rejected as `Unauthorized`.
pub proof fn lemma_expired_token_rejected(token: Seq<char>, secret: Seq<char>, now: i64)
    requires
        jwt_decoded(token, secret) matches Some(c) && c.1 <= now,
    ensures
        jwt_verify_spec(token, secret, now) == Err::<Claims, AppError>(AppError::Unauthorized),
{
}

/// A token whose signature does not verify under the secret — a tampered
/// or malformed token — is rejected as `Unauthorized` at every time.
pub proof fn lemma_bad_signature_rejected(token: Seq<char>, secret: Seq<char>, now: i64)
    requires
        jwt_decoded(token, secret) is None,
    ensures
        jwt_verify_spec(token, secret, now) == Err::<Claims, AppError>(AppError::Unauthorized),
{
}

} // verus!
