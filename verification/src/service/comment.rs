//! The rules for writing comments (the service that also notifies the
//! followers of the post).

use vstd::prelude::*;
use vstd::string::*;

use crate::domain::comment::CreateCommentInput;
use crate::domain::notification::{EventType, Notification};
use crate::service::error::ServiceError;
use crate::service::posts::is_validation_error;
use crate::text::{all_white_space, format_i64, lemma_trimmed_empty_iff_all_white_space, signed_decimal, trim};

verus! {

/// The refusal for a blank comment.
pub open spec fn blank_comment_message() -> Seq<char> {
    "댓글이 비어 있습니다"@
}

/// The sentence telling that `actor` commented on the post `post_id`.
pub open spec fn comment_added_text(actor: Seq<char>, post_id: i64) -> Seq<char> {
    actor + "님이 "@ + signed_decimal(post_id as int) + "번 게시글에 댓글을 달았습니다"@
}

/// `r` is the refusal `NotFound` that this service gives for a missing
/// parent post: it names the comment entity and the post's id.
pub open spec fn is_parent_not_found<T>(r: Result<T, ServiceError>, post_id: i64) -> bool {
    r matches Err(ServiceError::NotFound { entity, id }) && entity@ == "comment"@ && id == post_id
}

/// Refuses a comment whose body is empty or only whitespace.
pub fn validate_comment(input: &CreateCommentInput) -> (r: Result<(), ServiceError>)
    ensures
        all_white_space(input.body@) ==> is_validation_error(r, blank_comment_message()),
        !all_white_space(input.body@) ==> r is Ok,
{
    proof {
        lemma_trimmed_empty_iff_all_white_space(input.body@);
    }
    if trim(input.body.as_str()).is_empty() {
        Err(ServiceError::Validation("댓글이 비어 있습니다".to_owned()))
    } else {
        Ok(())
    }
}

/// A comment goes only under an existing post: `post_found` tells whether
/// the post `post_id` exists.
pub fn require_parent(post_found: bool, post_id: i64) -> (r: Result<(), ServiceError>)
    ensures
        post_found ==> r is Ok,
        !post_found ==> is_parent_not_found(r, post_id),
{
    if post_found {
        Ok(())
    } else {
        Err(ServiceError::NotFound { entity: "comment".to_owned(), id: post_id })
    }
}

/// The notification that `actor` added the comment `comment_id` to the post
/// `post_id`.
pub fn comment_added(post_id: i64, comment_id: i64, actor: &str) -> (n: Notification)
    ensures
        n.event_type == EventType::CommentAdded,
        n.post_id == post_id,
        n.comment_id == Some(comment_id),
        n.actor@ == actor@,
        n.message@ == comment_added_text(actor@, post_id),
{
    let mut message = actor.to_owned();
    message.append("님이 ");
    let number = format_i64(post_id);
    message.append(number.as_str());
    message.append("번 게시글에 댓글을 달았습니다");
    Notification {
        event_type: EventType::CommentAdded,
        post_id,
        comment_id: Some(comment_id),
        actor: actor.to_owned(),
        message,
    }
}

} // verus!
