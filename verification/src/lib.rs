//! Authentication core for a small user-account backend: password hashing
//! and verification, signed session tokens, API-key admission control, and
//! the guest / authenticated request gates, together with the verified
//! request-handling decisions built on top of them.

pub mod account;
pub mod db;
pub mod email;
pub mod errors;
pub mod gate;
pub mod models;
pub mod pages;
pub mod password;
pub mod text;
pub mod token;
