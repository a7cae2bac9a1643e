use vstd::prelude::*;

verus! {

/// Connection settings for the external database, as loaded at startup.
#[derive(Debug)]
pub struct DatabaseConfig {
    pub host: String,
    pub port: i32,
    pub user: String,
    pub password: String,
    pub name: String,
}

/// Settings of the HTTP server itself: the shared API key that the
/// admission gate compares against.
#[derive(Debug)]
pub struct ServerConfig {
    pub api_key: String,
}

/// The whole startup configuration: loaded once, read-only afterwards.
#[derive(Debug)]
pub struct AppConfig {
    pub database: DatabaseConfig,
    pub server: ServerConfig,
    pub jwt_secret: String,
}

/// A stored user row. `password` holds the encoded credential hash, never
/// the password itself; the timestamps are unix milliseconds.
#[derive(Debug)]
pub struct User {
    pub id: u64,
    pub name: String,
    pub email: String,
    pub password: String,
    pub created_at: i64,
    pub updated_at: i64,
}

/// The payload of a user-creation request.
#[derive(Debug)]
pub struct UserInsert {
    pub name: String,
    pub email: String,
    pub password: String,
}

/// The payload of a login request.
#[derive(Debug)]
pub struct UserLogin {
    pub email: String,
    pub password: String,
}

/// The payload of a user-edit request.
#[derive(Debug)]
pub struct UserUpdate {
    pub name: String,
    pub email: String,
}

/// Which column a user search matches against.
#[derive(Debug, Clone, Copy, PartialEq, Eq, Structural)]
pub enum SeacrhBy {
    Name,
    Email,
}

/// A user-search request: the column to search and the value to look for.
#[derive(Debug)]
pub struct SearchQuery {
    pub by: SeacrhBy,
    pub value: String,
}

/// The validated, trimmed row that a user-creation request inserts:
/// `password` holds the freshly derived credential hash.
#[derive(Debug, PartialEq, Eq)]
pub struct NewUser {
    pub name: String,
    pub email: String,
    pub password: String,
}

} // verus!
