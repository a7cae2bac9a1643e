use vstd::prelude::*;

use crate::errors::AppError;
use crate::text::is_trimmed;
use crate::text::str_eq;
use crate::text::trim;
use crate::text::trim_spec;
use crate::token::Claims;
use crate::token::jwt_decoded;
use crate::token::jwt_verify;
use crate::token::jwt_verify_spec;

verus! {

/// The view of an optional borrowed string.
pub open spec fn opt_view(s: Option<&str>) -> Option<Seq<char>> {
    match s {
        Some(x) => Some(x@),
        None => None,
    }
}

/// Whether the admission gate accepts: the key header must be present and
/// equal the configured key exactly — byte for byte, case-sensitive, with
/// no trimming.
pub open spec fn admission_ok(header: Option<Seq<char>>, key: Seq<char>) -> bool {
    header matches Some(h) && h == key
}

/// The admission gate: compares the inbound key header against the
/// configured key and rejects any mismatch or absence as `Unauthorized`.
/// It is stateless and knows nothing of sessions.
pub fn api_key_check(header: Option<&str>, key: &str) -> (r: Result<(), AppError>)
    ensures
        r is Ok <==> admission_ok(opt_view(header), key@),
        r is Err ==> r === Err(AppError::Unauthorized),
{
    match header {
        Some(h) => {
            if str_eq(h, key) {
                Ok(())
            } else {
                Err(AppError::Unauthorized)
            }
        },
        None => Err(AppError::Unauthorized),
    }
}

/// What the login-required gate decides for the optional session cookie:
/// a missing cookie is `Unauthorized`, and a present one is judged by
/// token verification on its trimmed value, whose failure passes through
/// unchanged.
pub open spec fn check_login_spec(cookie: Option<Seq<char>>, secret: Seq<char>, now: i64) -> Result<
    Claims,
    AppError,
> {
    match cookie {
        Some(t) => jwt_verify_spec(trim_spec(t), secret, now),
        None => Err(AppError::Unauthorized),
    }
}

/// The login-required session gate: on success the verified claims are
/// handed back for the request context; every failure is `Unauthorized`.
pub fn check_login(cookie: Option<&str>, now: i64, secret: &str) -> (r: Result<Claims, AppError>)
    ensures
        r == check_login_spec(opt_view(cookie), secret@, now),
{
    match cookie {
        Some(c) => jwt_verify(trim(c), now, secret),
        None => Err(AppError::Unauthorized),
    }
}

/// What the guest-only gate decides for the optional session cookie: no
/// cookie passes; a cookie that verifies as a live session is rejected as
/// `Forbidden`; an expired or garbage cookie deliberately fails open and
/// the caller is treated as a guest, so that a stale cookie cannot lock a
/// genuine guest out of login.
pub open spec fn check_guest_spec(cookie: Option<Seq<char>>, secret: Seq<char>, now: i64) -> Result<
    (),
    AppError,
> {
    match cookie {
        Some(t) => if jwt_verify_spec(trim_spec(t), secret, now) is Ok {
            Err(AppError::Forbidden)
        } else {
            Ok(())
        },
        None => Ok(()),
    }
}

/// The guest-only session gate: an authenticated caller may not reach
/// guest-only routes.
pub fn check_guest(cookie: Option<&str>, now: i64, secret: &str) -> (r: Result<(), AppError>)
    ensures
        r == check_guest_spec(opt_view(cookie), secret@, now),
{
    match cookie {
        Some(c) => {
            match jwt_verify(trim(c), now, secret) {
                Ok(_) => Err(AppError::Forbidden),
                Err(_) => Ok(()),
            }
        },
        None => Ok(()),
    }
}

/// The class a route is registered under, dispatched through one gate
/// pipeline rather than duplicated per router.
#[derive(Debug, Clone, Copy, PartialEq, Eq, Structural)]
pub enum RouteAuthPolicy {
    Public,
    GuestOnly,
    AuthRequired,
}

/// What the whole gate pipeline decides for one request: public routes
/// pass untouched; on guarded routes the admission gate runs first, and
/// only then the session gate of the route's class. On success the
/// login-required class attaches the verified claims.
pub open spec fn gate_request_spec(
    policy: RouteAuthPolicy,
    header: Option<Seq<char>>,
    cookie: Option<Seq<char>>,
    key: Seq<char>,
    secret: Seq<char>,
    now: i64,
) -> Result<Option<Claims>, AppError> {
    match policy {
        RouteAuthPolicy::Public => Ok(None),
        RouteAuthPolicy::GuestOnly => if !admission_ok(header, key) {
            Err(AppError::Unauthorized)
        } else {
            match check_guest_spec(cookie, secret, now) {
                Ok(_) => Ok(None),
                Err(e) => Err(e),
            }
        },
        RouteAuthPolicy::AuthRequired => if !admission_ok(header, key) {
            Err(AppError::Unauthorized)
        } else {
            match check_login_spec(cookie, secret, now) {
                Ok(c) => Ok(Some(c)),
                Err(e) => Err(e),
            }
        },
    }
}

/// Runs the ordered gate pipeline for one request: the admission gate
/// (API key) before the session gate of the route's class.
pub fn gate_request(
    policy: RouteAuthPolicy,
    header: Option<&str>,
    cookie: Option<&str>,
    key: &str,
    now: i64,
    secret: &str,
) -> (r: Result<Option<Claims>, AppError>)
    ensures
        r == gate_request_spec(policy, opt_view(header), opt_view(cookie), key@, secret@, now),
{
    match policy {
        RouteAuthPolicy::Public => Ok(None),
        RouteAuthPolicy::GuestOnly => {
            match api_key_check(header, key) {
                Ok(_) => {
                    match check_guest(cookie, now, secret) {
                        Ok(_) => Ok(None),
                        Err(e) => Err(e),
                    }
                },
                Err(e) => Err(e),
            }
        },
        RouteAuthPolicy::AuthRequired => {
            match api_key_check(header, key) {
                Ok(_) => {
                    match check_login(cookie, now, secret) {
                        Ok(c) => Ok(Some(c)),
                        Err(e) => Err(e),
                    }
                },
                Err(e) => Err(e),
            }
        },
    }
}

/// The terminal states of the login-required gate: no cookie rejects; a
/// cookie whose signature fails rejects; an expired cookie rejects; a
/// live cookie accepts and attaches exactly the claims the token carries.
pub proof fn lemma_auth_gate_states(cookie: Option<Seq<char>>, secret: Seq<char>, now: i64)
    ensures
        cookie is None ==> check_login_spec(cookie, secret, now) == Err::<Claims, AppError>(
            AppError::Unauthorized,
        ),
        cookie matches Some(t) && crate::token::jwt_decoded(trim_spec(t), secret) is None
            ==> check_login_spec(cookie, secret, now) == Err::<Claims, AppError>(
            AppError::Unauthorized,
        ),
        cookie matches Some(t) ==> ({
            let d = crate::token::jwt_decoded(trim_spec(t), secret);
            &&& d is Some && (d->0).1 <= now ==> check_login_spec(cookie, secret, now) == Err::<
                Claims,
                AppError,
            >(AppError::Unauthorized)
            &&& d is Some && (d->0).1 > now ==> check_login_spec(cookie, secret, now) == Ok::<
                Claims,
                AppError,
            >(Claims { sub: (d->0).0, exp: (d->0).1 })
        }),
{
}

/// The terminal states of the guest-only gate: no cookie passes; a cookie
/// that fails verification passes (the caller counts as a guest); a
/// cookie that verifies as a live session rejects as `Forbidden`.
pub proof fn lemma_guest_gate_states(cookie: Option<Seq<char>>, secret: Seq<char>, now: i64)
    ensures
        cookie is None ==> check_guest_spec(cookie, secret, now) is Ok,
        cookie matches Some(t) && !(jwt_verify_spec(trim_spec(t), secret, now) is Ok)
            ==> check_guest_spec(cookie, secret, now) is Ok,
        cookie matches Some(t) && jwt_verify_spec(trim_spec(t), secret, now) is Ok
            ==> check_guest_spec(cookie, secret, now) == Err::<(), AppError>(AppError::Forbidden),
{
}

/// An issued cookie at the two session gates. Issuance (`create_jwt`,
/// and `login_user` on a password match) hands out a token that decodes
/// to its claims and carries no surrounding whitespace; any such cookie
/// passes the login-required gate with exactly those claims while the
/// expiration is strictly in the future and is rejected as
/// `Unauthorized` from then on, and the guest-only gate rejects it as
/// `Forbidden` exactly while it is live.
pub proof fn lemma_issued_cookie_at_gates(
    token: Seq<char>,
    secret: Seq<char>,
    sub: u64,
    exp: i64,
    now: i64,
)
    requires
        is_trimmed(token),
        jwt_decoded(token, secret) == Some((sub, exp)),
    ensures
        now < exp ==> check_login_spec(Some(token), secret, now) == Ok::<Claims, AppError>(
            Claims { sub, exp },
        ),
        now >= exp ==> check_login_spec(Some(token), secret, now) == Err::<Claims, AppError>(
            AppError::Unauthorized,
        ),
        now < exp ==> check_guest_spec(Some(token), secret, now) == Err::<(), AppError>(
            AppError::Forbidden,
        ),
        now >= exp ==> check_guest_spec(Some(token), secret, now) is Ok,
{
}

/// The admission gate runs before any session gate: on a guarded route a
/// missing or wrong key is rejected as `Unauthorized`, whatever cookie
/// the request carries.
pub proof fn lemma_admission_first(
    policy: RouteAuthPolicy,
    header: Option<Seq<char>>,
    cookie: Option<Seq<char>>,
    key: Seq<char>,
    secret: Seq<char>,
    now: i64,
)
    requires
        !(policy is Public),
        !admission_ok(header, key),
    ensures
        gate_request_spec(policy, header, cookie, key, secret, now) == Err::<
            Option<Claims>,
            AppError,
        >(AppError::Unauthorized),
{
}

} // verus!
