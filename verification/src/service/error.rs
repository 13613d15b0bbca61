//! Why a request to the board's services failed.

use vstd::prelude::*;

use crate::repository::posts::RepositoryError;

verus! {

/// A refused or failed request.
#[derive(Debug)]
pub enum ServiceError {
    /// The store failed.
    Repo(RepositoryError),
    /// The input breaks a rule; the text says which.
    Validation(String),
    /// There is no `entity` with this id.
    NotFound { entity: String, id: i64 },
    /// A password could not be hashed or checked.
    PasswordHash(String),
    /// The requester may not do this.
    Forbidden,
}

impl From<RepositoryError> for ServiceError {
    fn from(err: RepositoryError) -> (r: Self) {
        ServiceError::Repo(err)
    }
}

impl vstd::std_specs::convert::FromSpecImpl<RepositoryError> for ServiceError {
    open spec fn obeys_from_spec() -> bool {
        true
    }

    open spec fn from_spec(err: RepositoryError) -> Self {
        ServiceError::Repo(err)
    }
}

} // verus!
