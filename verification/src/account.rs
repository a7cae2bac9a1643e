use vstd::prelude::*;
use vstd::string::*;

use crate::email::email_tld_ok;
use crate::email::validate_email_tld;
use crate::errors::AppError;
use crate::models::NewUser;
use crate::models::SeacrhBy;
use crate::models::SearchQuery;
use crate::models::User;
use crate::models::UserInsert;
use crate::models::UserLogin;
use crate::models::UserUpdate;
use crate::password::hashing_password;
use crate::password::phc_matches;
use crate::password::phc_valid;
use crate::password::verify_password;
use crate::password::verify_password_spec;
use crate::text::is_trimmed;
use crate::text::trim;
use crate::text::trim_spec;
use crate::token::SESSION_LIFETIME_SECS;
use crate::token::create_jwt;
use crate::token::jwt_decoded;
use crate::token::jwt_encodable;
use crate::token::jwt_token_of;

verus! {

/// Whether a user-creation payload passes field validation: a name of at
/// least three characters, an address with an acceptable top-level
/// domain, and a password of at least five characters.
pub open spec fn user_insert_valid(p: UserInsert) -> bool {
    p.name@.len() >= 3 && email_tld_ok(p.email@) && p.password@.len() >= 5
}

/// Whether a user-edit payload passes field validation: a name of at
/// least three characters and an address with an acceptable top-level
/// domain.
pub open spec fn user_update_valid(p: UserUpdate) -> bool {
    p.name@.len() >= 3 && email_tld_ok(p.email@)
}

/// Whether a counted address is already registered: the judgement on the
/// row count that the persistence layer reports.
pub fn email_taken(count: i64) -> (r: bool)
    ensures
        r == (count > 0),
{
    count > 0
}

/// Checks the fields of a user-creation payload.
pub fn validate_user_insert(p: &UserInsert) -> (r: Result<(), AppError>)
    ensures
        r is Ok <==> user_insert_valid(*p),
        r is Err ==> r === Err(AppError::Validation),
{
    if p.name.as_str().unicode_len() < 3 {
        return Err(AppError::Validation);
    }
    match validate_email_tld(p.email.as_str()) {
        Ok(_) => {},
        Err(e) => {
            return Err(e);
        },
    }
    if p.password.as_str().unicode_len() < 5 {
        return Err(AppError::Validation);
    }
    Ok(())
}

/// Checks the fields of a user-edit payload.
pub fn validate_user_update(p: &UserUpdate) -> (r: Result<(), AppError>)
    ensures
        r is Ok <==> user_update_valid(*p),
        r is Err ==> r === Err(AppError::Validation),
{
    if p.name.as_str().unicode_len() < 3 {
        return Err(AppError::Validation);
    }
    match validate_email_tld(p.email.as_str()) {
        Ok(_) => {},
        Err(e) => {
            return Err(e);
        },
    }
    Ok(())
}

/// What creating a user decides, once the persistence layer has said
/// whether the (trimmed) address is already registered. An invalid
/// payload — including a password that is blank once trimmed — is a
/// validation failure; a taken address is a conflict; otherwise the
/// trimmed fields and the freshly derived credential hash are handed
/// back for insertion, and only an internal hashing fault remains.
pub fn insert_user(payload: &UserInsert, email_taken: bool) -> (r: Result<NewUser, AppError>)
    ensures
        !user_insert_valid(*payload) ==> r === Err(AppError::Validation),
        user_insert_valid(*payload) && trim_spec(payload.password@).len() == 0 ==> r === Err(
            AppError::Validation,
        ),
        r matches Ok(nu) ==> {
            &&& user_insert_valid(*payload)
            &&& !email_taken
            &&& nu.name@ == trim_spec(payload.name@)
            &&& nu.email@ == trim_spec(payload.email@)
            &&& phc_valid(nu.password@)
            &&& phc_matches(nu.password@, trim_spec(payload.password@))
        },
        user_insert_valid(*payload) && trim_spec(payload.password@).len() > 0 ==> match r {
            Ok(_) => !email_taken,
            Err(e) => e == AppError::HashingError || (e == AppError::Conflict && email_taken),
        },
{
    match validate_user_insert(payload) {
        Ok(_) => {},
        Err(e) => {
            return Err(e);
        },
    }
    let name = trim(payload.name.as_str());
    let email = trim(payload.email.as_str());
    let password = trim(payload.password.as_str());
    if password.unicode_len() == 0 {
        return Err(AppError::Validation);
    }
    let hash = match hashing_password(password) {
        Ok(h) => h,
        Err(e) => {
            return Err(e);
        },
    };
    if email_taken {
        return Err(AppError::Conflict);
    }
    Ok(NewUser { name: name.to_owned(), email: email.to_owned(), password: hash })
}

/// What logging in decides for a payload and the account looked up by its
/// (trimmed) address. Every failed attempt — an unregistered address, a
/// password that does not match the stored hash, or a stored hash that
/// cannot even be parsed — is authentication denied, with no hint which,
/// so that login cannot be used to enumerate accounts. On a match the
/// session token for the account's id is issued, expiring 24 hours after
/// `now`, as a cookie value free of surrounding whitespace; issuance
/// succeeds exactly when the signing backend accepts the claims, and a
/// refusal is the configuration fault that `create_jwt` reports.
pub fn login_user(payload: &UserLogin, account: Option<&User>, now: i64, secret: &str) -> (r:
    Result<String, AppError>)
    requires
        now <= i64::MAX - SESSION_LIFETIME_SECS,
    ensures
        account is None ==> r === Err(AppError::Unauthorized),
        account matches Some(u) ==> ({
            let candidate = trim_spec(payload.password@);
            let exp = (now + SESSION_LIFETIME_SECS) as i64;
            match verify_password_spec(u.password@, candidate) {
                Ok(matched) => if matched {
                    &&& r is Ok <==> jwt_encodable(u.id, exp, secret@)
                    &&& r matches Ok(t) ==> t@ == jwt_token_of(u.id, exp, secret@) && jwt_decoded(
                        t@,
                        secret@,
                    ) == Some((u.id, exp)) && is_trimmed(t@)
                    &&& r matches Err(e) ==> e == AppError::ConfigError
                } else {
                    r === Err(AppError::Unauthorized)
                },
                Err(_) => r === Err(AppError::Unauthorized),
            }
        }),
{
    let user = match account {
        Some(u) => u,
        None => {
            return Err(AppError::Unauthorized);
        },
    };
    let password = trim(payload.password.as_str());
    let matched = match verify_password(user.password.as_str(), password) {
        Ok(b) => b,
        Err(_) => {
            return Err(AppError::Unauthorized);
        },
    };
    if !matched {
        return Err(AppError::Unauthorized);
    }
    create_jwt(user.id, now, secret)
}

/// What editing a user decides: an invalid payload is a validation
/// failure, and otherwise the trimmed name and address are handed back
/// for the update statement.
pub fn edit_user(payload: &UserUpdate) -> (r: Result<(String, String), AppError>)
    ensures
        r is Ok <==> user_update_valid(*payload),
        r matches Ok(p) ==> p.0@ == trim_spec(payload.name@) && p.1@ == trim_spec(payload.email@),
        r is Err ==> r === Err(AppError::Validation),
{
    match validate_user_update(payload) {
        Ok(_) => {},
        Err(e) => {
            return Err(e);
        },
    }
    let name = trim(payload.name.as_str());
    let email = trim(payload.email.as_str());
    Ok((name.to_owned(), email.to_owned()))
}

/// The statement a search by the given column runs.
pub fn search_statement(by: &SeacrhBy) -> (r: &'static str)
    ensures
        by is Name ==> r@ == "SELECT * FROM users WHERE name LIKE ?"@,
        by is Email ==> r@ == "SELECT * FROM users WHERE email LIKE ?"@,
{
    match by {
        SeacrhBy::Name => "SELECT * FROM users WHERE name LIKE ?",
        SeacrhBy::Email => "SELECT * FROM users WHERE email LIKE ?",
    }
}

/// The pattern a search value matches with: the trimmed value between two
/// `'%'` wildcards.
pub open spec fn spec_like_pattern(value: Seq<char>) -> Seq<char> {
    "%"@ + trim_spec(value) + "%"@
}

/// Builds the match pattern for a search value.
pub fn like_pattern(value: &str) -> (r: String)
    ensures
        r@ == spec_like_pattern(value@),
{
    let mut s = String::new();
    s.append("%");
    s.append(trim(value));
    s.append("%");
    proof {
        assert(s@ =~= spec_like_pattern(value@));
    }
    s
}

/// What a search request runs: the statement for its column and the
/// pattern for its value.
pub fn get_user(q: &SearchQuery) -> (r: (&'static str, String))
    ensures
        q.by is Name ==> r.0@ == "SELECT * FROM users WHERE name LIKE ?"@,
        q.by is Email ==> r.0@ == "SELECT * FROM users WHERE email LIKE ?"@,
        r.1@ == spec_like_pattern(q.value@),
{
    (search_statement(&q.by), like_pattern(q.value.as_str()))
}

/// What deleting reports once the database has said how many rows went:
/// deleting nothing means the record was absent.
pub fn delete_user(rows_affected: u64) -> (r: Result<(), AppError>)
    ensures
        r is Ok <==> rows_affected > 0,
        r is Err ==> r === Err(AppError::NotFound),
{
    if rows_affected == 0 {
        Err(AppError::NotFound)
    } else {
        Ok(())
    }
}

} // verus!
