//! The signed-in user of a request, read from its bearer token.

use vstd::prelude::*;
use vstd::string::*;

use crate::auth::jwt::Claims;
use crate::error::AppError;
use crate::text::{has_prefix, parse_i64, parse_i64_spec, starts_with};

verus! {

/// The user that a valid token names.
#[derive(Debug, Clone)]
pub struct AuthUser {
    pub user_id: i64,
    pub email: String,
    pub role: String,
}

/// The token of an `Authorization` header: what follows `Bearer `.
pub open spec fn bearer_token_of(header: Seq<char>) -> Option<Seq<char>> {
    if has_prefix(header, "Bearer "@) {
        Some(header.skip(7))
    } else {
        None
    }
}

/// The token of an `Authorization` header; a missing header, or one that is
/// not a bearer token, is `Unauthorized`.
pub fn bearer_token(header: Option<&str>) -> (r: Result<&str, AppError>)
    ensures
        match header {
            None => r == Err::<&str, AppError>(AppError::Unauthorized),
            Some(h) => match bearer_token_of(h@) {
                Some(t) => r matches Ok(tok) && tok@ == t,
                None => r == Err::<&str, AppError>(AppError::Unauthorized),
            },
        },
{
    match header {
        None => Err(AppError::Unauthorized),
        Some(h) => {
            if starts_with(h, "Bearer ") {
                proof {
                    reveal_strlit("Bearer ");
                }
                let n = h.unicode_len();
                let tok = h.substring_char(7, n);
                assert(tok@ =~= h@.skip(7));
                Ok(tok)
            } else {
                Err(AppError::Unauthorized)
            }
        },
    }
}

/// The user that verified claims name; a subject that is not a decimal
/// `i64` is `Unauthorized`.
pub fn auth_user_from_claims(claims: Claims) -> (r: Result<AuthUser, AppError>)
    ensures
        match parse_i64_spec(claims.sub@) {
            None => r == Err::<AuthUser, AppError>(AppError::Unauthorized),
            Some(id) => r == Ok::<AuthUser, AppError>(
                AuthUser { user_id: id, email: claims.email, role: claims.role },
            ),
        },
{
    match parse_i64(claims.sub.as_str()) {
        None => Err(AppError::Unauthorized),
        Some(user_id) => Ok(AuthUser { user_id, email: claims.email, role: claims.role }),
    }
}

} // verus!
