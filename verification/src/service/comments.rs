//! The rules for writing comments (the service over any post store).

use vstd::prelude::*;

use crate::domain::comment::CreateCommentInput;
use crate::service::error::ServiceError;
use crate::service::posts::{is_post_not_found, is_validation_error, post_not_found};
use crate::text::{all_white_space, lemma_trimmed_empty_iff_all_white_space, trim, trimmed};

verus! {

/// The refusal for a blank comment.
pub open spec fn empty_comment_message() -> Seq<char> {
    "내용이 없습니다"@
}

/// Refuses a comment whose body is empty or only whitespace.
pub fn validate_comment(input: &CreateCommentInput) -> (r: Result<(), ServiceError>)
    ensures
        all_white_space(input.body@) ==> is_validation_error(r, empty_comment_message()),
        !all_white_space(input.body@) ==> r is Ok,
{
    proof {
        lemma_trimmed_empty_iff_all_white_space(input.body@);
    }
    if trim(input.body.as_str()).is_empty() {
        Err(ServiceError::Validation("내용이 없습니다".to_owned()))
    } else {
        Ok(())
    }
}

/// A comment goes only under an existing post: `post_found` tells whether
/// the post `post_id` exists.
pub fn require_post(post_found: bool, post_id: i64) -> (r: Result<(), ServiceError>)
    ensures
        post_found ==> r is Ok,
        !post_found ==> is_post_not_found(r, post_id),
{
    if post_found {
        Ok(())
    } else {
        Err(post_not_found(post_id))
    }
}

} // verus!
