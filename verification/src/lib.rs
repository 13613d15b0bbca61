//! A message board backend: posts, comments, accounts and the rules
//! that the HTTP layer applies to them.

use vstd::prelude::*;

pub mod text;
pub mod time;
pub mod domain;
pub mod repository;
pub mod service;
pub mod routes;
pub mod auth;
pub mod handler;
pub mod error;
pub mod middleware;
pub mod config;
