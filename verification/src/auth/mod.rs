//! Passwords, tokens and the signed-in user.

pub mod extractor;
pub mod jwt;
pub mod password;
