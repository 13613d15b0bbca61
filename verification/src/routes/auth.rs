//! What sign-up and login answer.

use vstd::prelude::*;

verus! {

/// The answer to a login: the bearer token.
#[derive(Debug)]
pub struct LoginResponse {
    pub token: String,
}

/// The answer to a login with `token`, and its type.
#[derive(Debug)]
pub struct TokenResponse {
    pub token: String,
    pub token_type: String,
}

/// The token answer of the handler API: a bearer token.
pub fn token_response(token: String) -> (r: TokenResponse)
    ensures
        r.token == token,
        r.token_type@ == "Bearer"@,
{
    TokenResponse { token, token_type: "Bearer".to_owned() }
}

} // verus!
