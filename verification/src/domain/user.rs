//! Accounts.

use vstd::prelude::*;

verus! {

/// A stored account. Instants are microseconds since the Unix epoch (UTC).
#[derive(Debug)]
pub struct User {
    pub id: i64,
    pub email: String,
    /// The password hash: an argon2id PHC string, or bcrypt for accounts
    /// from before the migration.
    pub password_hash: String,
    pub display_name: String,
    pub role: String,
    pub created_at: i64,
    pub updated_at: i64,
}

/// What a user gives to sign in.
#[derive(Debug)]
pub struct LoginInput {
    pub email: String,
    pub password: String,
}

/// What a user gives to sign up.
#[derive(Debug)]
pub struct SignupInput {
    pub email: String,
    pub password: String,
    pub display_name: String,
}

} // verus!
