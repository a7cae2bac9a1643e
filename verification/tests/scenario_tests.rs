//! The end-to-end flow: register, log in, then reach the protected and
//! the guest-only route classes with and without the session cookie.

use auth_core::account::insert_user;
use auth_core::account::login_user;
use auth_core::errors::AppError;
use auth_core::gate::RouteAuthPolicy;
use auth_core::gate::gate_request;
use auth_core::models::User;
use auth_core::models::UserInsert;
use auth_core::models::UserLogin;

const API_KEY: &str = "hgdshdfrhdrhdftjdftjfdtjdf";
const SECRET: &str = "test-signing-secret";
const NOW: i64 = 1_700_000_000;

#[test]
fn register_login_then_gated_requests() {
    // Register a user with password "pw12345".
    let payload = UserInsert {
        name: "ScenarioUser".to_string(),
        email: "scenario@test.com".to_string(),
        password: "pw12345".to_string(),
    };
    let row = insert_user(&payload, false).unwrap();
    let stored = User {
        id: 1,
        name: row.name,
        email: row.email,
        password: row.password,
        created_at: 0,
        updated_at: 0,
    };

    // Log in with the same password: a session cookie comes back.
    let login = UserLogin {
        email: "scenario@test.com".to_string(),
        password: "pw12345".to_string(),
    };
    let cookie = login_user(&login, Some(&stored), NOW, SECRET).unwrap();

    // A protected request with cookie and correct API key proceeds.
    let ok = gate_request(
        RouteAuthPolicy::AuthRequired,
        Some(API_KEY),
        Some(&cookie),
        API_KEY,
        NOW,
        SECRET,
    );
    let claims = ok.unwrap().unwrap();
    assert_eq!(claims.sub, 1);

    // The same request with the cookie stripped is rejected as 401.
    let stripped =
        gate_request(RouteAuthPolicy::AuthRequired, Some(API_KEY), None, API_KEY, NOW, SECRET);
    assert_eq!(stripped, Err(AppError::Unauthorized));
    assert_eq!(stripped.unwrap_err().status_code(), 401);

    // The same request to a guest-only route with that cookie is 403.
    let guest = gate_request(
        RouteAuthPolicy::GuestOnly,
        Some(API_KEY),
        Some(&cookie),
        API_KEY,
        NOW,
        SECRET,
    );
    assert_eq!(guest, Err(AppError::Forbidden));
    assert_eq!(guest.unwrap_err().status_code(), 403);
}
