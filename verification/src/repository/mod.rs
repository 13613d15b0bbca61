//! Where posts are kept.

pub mod posts;
