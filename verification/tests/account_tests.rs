use auth_core::account::delete_user;
use auth_core::account::email_taken;
use auth_core::account::edit_user;
use auth_core::account::get_user;
use auth_core::account::insert_user;
use auth_core::account::like_pattern;
use auth_core::account::login_user;
use auth_core::account::validate_user_insert;
use auth_core::errors::AppError;
use auth_core::models::SeacrhBy;
use auth_core::models::SearchQuery;
use auth_core::models::User;
use auth_core::models::UserInsert;
use auth_core::models::UserLogin;
use auth_core::models::UserUpdate;
use auth_core::password::verify_password;
use auth_core::token::jwt_verify;

const SECRET: &str = "test-signing-secret";
const NOW: i64 = 1_700_000_000;

fn insert_payload(name: &str, email: &str, password: &str) -> UserInsert {
    UserInsert {
        name: name.to_string(),
        email: email.to_string(),
        password: password.to_string(),
    }
}

fn stored_user(id: u64, email: &str, hash: &str) -> User {
    User {
        id,
        name: "TestUser".to_string(),
        email: email.to_string(),
        password: hash.to_string(),
        created_at: 0,
        updated_at: 0,
    }
}

#[test]
fn validate_user_insert_rules() {
    assert_eq!(
        validate_user_insert(&insert_payload("TestUser", "valid@test.com", "123456")),
        Ok(())
    );
    assert_eq!(
        validate_user_insert(&insert_payload("ab", "valid@test.com", "123456")),
        Err(AppError::Validation)
    );
    assert_eq!(
        validate_user_insert(&insert_payload("TestUser", "valid@test.com", "1234")),
        Err(AppError::Validation)
    );
    assert_eq!(
        validate_user_insert(&insert_payload("TestUser", "no-at-sign", "123456")),
        Err(AppError::Validation)
    );
    assert_eq!(
        validate_user_insert(&insert_payload("TestUser", "short@tld.c", "123456")),
        Err(AppError::Validation)
    );
}

#[test]
fn insert_user_api_key_valid_token() {
    let row = insert_user(&insert_payload("ValidUser", " valid@test.com ", "123456"), false)
        .unwrap();
    assert_eq!(row.name, "ValidUser");
    assert_eq!(row.email, "valid@test.com");
    assert_eq!(verify_password(&row.password, "123456"), Ok(true));
}

#[test]
fn insert_user_existing_email_is_conflict() {
    assert_eq!(
        insert_user(&insert_payload("TestUser", "taken@test.com", "123456"), true),
        Err(AppError::Conflict)
    );
}

#[test]
fn insert_user_blank_password_is_validation_failure() {
    assert_eq!(
        insert_user(&insert_payload("TestUser", "valid@test.com", "      "), false),
        Err(AppError::Validation)
    );
}

#[test]
fn login_unknown_email_is_unauthorized() {
    // Indistinguishable from a wrong password: login never says which.
    let payload = UserLogin {
        email: "guest@test.com".to_string(),
        password: "123456".to_string(),
    };
    assert_eq!(login_user(&payload, None, NOW, SECRET), Err(AppError::Unauthorized));
}

#[test]
fn login_wrong_password_is_unauthorized() {
    let row = insert_user(&insert_payload("TestUser", "user@test.com", "123456"), false).unwrap();
    let user = stored_user(3, "user@test.com", &row.password);
    let payload = UserLogin {
        email: "user@test.com".to_string(),
        password: "654321".to_string(),
    };
    assert_eq!(
        login_user(&payload, Some(&user), NOW, SECRET),
        Err(AppError::Unauthorized)
    );
}

#[test]
fn login_with_unparsable_stored_hash_is_unauthorized() {
    let user = stored_user(3, "user@test.com", "corrupted-row");
    let payload = UserLogin {
        email: "user@test.com".to_string(),
        password: "123456".to_string(),
    };
    assert_eq!(
        login_user(&payload, Some(&user), NOW, SECRET),
        Err(AppError::Unauthorized)
    );
}

#[test]
fn login_issues_token_for_account_id() {
    let row = insert_user(&insert_payload("TestUser", "user@test.com", "123456"), false).unwrap();
    let user = stored_user(17, "user@test.com", &row.password);
    let payload = UserLogin {
        email: " user@test.com ".to_string(),
        password: " 123456 ".to_string(),
    };
    let token = login_user(&payload, Some(&user), NOW, SECRET).unwrap();
    let claims = jwt_verify(&token, NOW, SECRET).unwrap();
    assert_eq!(claims.sub, 17);
    assert_eq!(claims.exp, NOW + 86400);
}

#[test]
fn edit_user_api_key_valid_token() {
    let payload = UserUpdate {
        name: " EditedUser ".to_string(),
        email: "edit@test.com".to_string(),
    };
    let (name, email) = edit_user(&payload).unwrap();
    assert_eq!(name, "EditedUser");
    assert_eq!(email, "edit@test.com");
    let bad = UserUpdate { name: "ab".to_string(), email: "edit@test.com".to_string() };
    assert_eq!(edit_user(&bad), Err(AppError::Validation));
}

#[test]
fn search_plan_picks_column_and_pattern() {
    let by_name = SearchQuery { by: SeacrhBy::Name, value: " Tes ".to_string() };
    let (stmt, pattern) = get_user(&by_name);
    assert_eq!(stmt, "SELECT * FROM users WHERE name LIKE ?");
    assert_eq!(pattern, "%Tes%");
    let by_email = SearchQuery { by: SeacrhBy::Email, value: "test.com".to_string() };
    let (stmt, pattern) = get_user(&by_email);
    assert_eq!(stmt, "SELECT * FROM users WHERE email LIKE ?");
    assert_eq!(pattern, "%test.com%");
    assert_eq!(like_pattern(""), "%%");
}

#[test]
fn delete_user_api_key_valid_token() {
    assert_eq!(delete_user(1), Ok(()));
    assert_eq!(delete_user(0), Err(AppError::NotFound));
}

#[test]
fn email_taken_judges_the_row_count() {
    assert!(!email_taken(0));
    assert!(email_taken(1));
    assert!(email_taken(7));
    assert!(!email_taken(-1));
}
