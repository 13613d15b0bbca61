//! The board's rules: what may be written, changed and removed, and by whom.

pub mod comment;
pub mod comments;
pub mod error;
pub mod post;
pub mod posts;
pub mod user;

use vstd::prelude::*;

use crate::domain::role::Role;
use crate::service::error::ServiceError;

verus! {

/// A requester may change a post that they wrote, and an administrator may
/// change any post.
pub open spec fn may_modify(author_id: i64, requester_id: i64, role: Role) -> bool {
    author_id == requester_id || role == Role::Admin
}

/// Refuses, with `Forbidden`, a requester who is neither the author nor an
/// administrator.
pub fn check_ownership(author_id: i64, requester_id: i64, requester_role: &Role) -> (r: Result<
    (),
    ServiceError,
>)
    ensures
        r is Ok <==> may_modify(author_id, requester_id, *requester_role),
        r is Err ==> r == Err::<(), ServiceError>(ServiceError::Forbidden),
{
    match requester_role {
        Role::Admin => Ok(()),
        Role::User => {
            if author_id == requester_id {
                Ok(())
            } else {
                Err(ServiceError::Forbidden)
            }
        },
    }
}

} // verus!
