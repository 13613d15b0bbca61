//! The decisions of the request middleware: who may reach the admin
//! endpoints, how clients are told apart for rate limiting, what a limited
//! client is answered, and request ids.

pub mod ip_guard;
pub mod rate_limit_error;
pub mod rate_limit_key;
pub mod request_id;
