//! What the HTTP endpoints compute once their inputs are extracted.

pub mod auth;
pub mod meta;
pub mod post;
pub mod posts;
