//! The rules of the posts service over the SQL store: what a lookup answers
//! and how a page of rows is handed out.

use vstd::prelude::*;

use crate::domain::post::{post_list_response, row_of, PostListResponse, PostRow, PostWithAuthor};
use crate::repository::posts::RepositoryError;
use crate::service::error::ServiceError;

verus! {

/// `r` is the refusal `NotFound` that this service gives for a missing
/// post: it names the posts table and the id asked for.
pub open spec fn is_row_not_found<T>(r: Result<T, ServiceError>, id: i64) -> bool {
    r matches Err(ServiceError::NotFound { entity, id: missing }) && entity@ == "posts"@ && missing
        == id
}

/// What a lookup of the post `id` answers, given what the store answered:
/// the row when there is one, `NotFound` when there is none, and the
/// store's failure as it came.
pub fn found_post_row(found: Result<Option<PostRow>, RepositoryError>, id: i64) -> (r: Result<
    PostRow,
    ServiceError,
>)
    ensures
        match found {
            Ok(Some(row)) => r == Ok::<PostRow, ServiceError>(row),
            Ok(None) => is_row_not_found(r, id),
            Err(e) => r == Err::<PostRow, ServiceError>(ServiceError::Repo(e)),
        },
{
    match found {
        Ok(Some(row)) => Ok(row),
        Ok(None) => Err(ServiceError::NotFound { entity: "posts".to_owned(), id }),
        Err(e) => Err(ServiceError::Repo(e)),
    }
}

/// The page `page` that the store's answer makes: its rows without their
/// authors, in the order the store gave them, and the total it counted.
pub fn listed_page(
    found: Result<(Vec<PostWithAuthor>, i64), RepositoryError>,
    page: i64,
) -> (r: Result<PostListResponse, ServiceError>)
    ensures
        match found {
            Ok((rows, total)) => r matches Ok(resp) && resp.total == total && resp.page == page
                && resp.posts.len() == rows.len() && forall|i: int|
                0 <= i < rows.len() ==> #[trigger] resp.posts@[i] == row_of(rows@[i]),
            Err(e) => r == Err::<PostListResponse, ServiceError>(ServiceError::Repo(e)),
        },
{
    match found {
        Ok((rows, total)) => Ok(post_list_response(rows, total, page)),
        Err(e) => Err(ServiceError::Repo(e)),
    }
}

} // verus!
