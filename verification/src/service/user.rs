//! Sign-up and login.

use vstd::prelude::*;

use crate::auth::password::VerifyResult;
use crate::domain::user::User;
use crate::service::error::ServiceError;
use crate::service::posts::is_validation_error;

verus! {

/// The role that a new account gets.
pub open spec fn signup_role_text() -> Seq<char> {
    "user"@
}

/// The refusal for an unknown email.
pub open spec fn bad_credentials_message() -> Seq<char> {
    "이메일 또는 비밀번호가 올바르지 않습니다"@
}

/// The role that a new account gets.
pub fn signup_role() -> (r: String)
    ensures
        r@ == signup_role_text(),
{
    "user".to_owned()
}

/// The account found for a login email; none is refused as bad
/// credentials.
pub fn require_account(found: Option<User>) -> (r: Result<User, ServiceError>)
    ensures
        match found {
            Some(u) => r == Ok::<User, ServiceError>(u),
            None => is_validation_error(r, bad_credentials_message()),
        },
{
    match found {
        Some(u) => Ok(u),
        None => Err(ServiceError::Validation("이메일 또는 비밀번호가 올바르지 않습니다".to_owned())),
    }
}

/// What a login does once the password check has run: a failed check is a
/// password error; otherwise the account is signed in, together with the
/// hash to store when the check asks for a rehash. The check's verdict on
/// the password itself is not consulted here.
pub fn finish_login(user: User, checked: Result<VerifyResult, String>) -> (r: Result<
    (User, Option<String>),
    ServiceError,
>)
    ensures
        match checked {
            Err(text) => r == Err::<(User, Option<String>), ServiceError>(
                ServiceError::PasswordHash(text),
            ),
            Ok(v) => r == Ok::<(User, Option<String>), ServiceError>(
                (
                    user,
                    if v.needs_rehash {
                        v.new_hash
                    } else {
                        None
                    },
                ),
            ),
        },
{
    match checked {
        Err(text) => Err(ServiceError::PasswordHash(text)),
        Ok(v) => {
            let store = if v.needs_rehash {
                v.new_hash
            } else {
                None
            };
            Ok((user, store))
        },
    }
}

} // verus!
