//! The board's data: posts, comments, users, notifications and roles.

pub mod comment;
pub mod notification;
pub mod post;
pub mod posts;
pub mod role;
pub mod user;
