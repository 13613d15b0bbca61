//! Comments on posts.

use vstd::prelude::*;

verus! {

/// A stored comment. Instants are microseconds since the Unix epoch (UTC).
#[derive(Debug)]
pub struct Comment {
    pub id: i64,
    pub post_id: i64,
    pub body: String,
    pub created_at: i64,
    pub updated_at: i64,
}

/// A comment row with its author.
#[derive(Debug)]
pub struct CommentRow {
    pub id: i64,
    pub content: String,
    pub post_id: i64,
    pub author_id: i64,
    pub created_at: i64,
}

/// The request to write a comment.
#[derive(Debug)]
pub struct CreateCommentInput {
    pub body: String,
}

/// A comment as the API returns it.
#[derive(Debug)]
pub struct CommentResponse {
    pub id: i64,
    pub post_id: i64,
    pub body: String,
    pub created_at: i64,
    pub updated_at: i64,
}

/// The API form of `c`.
pub open spec fn comment_response_of(c: Comment) -> CommentResponse {
    CommentResponse {
        id: c.id,
        post_id: c.post_id,
        body: c.body,
        created_at: c.created_at,
        updated_at: c.updated_at,
    }
}

impl From<Comment> for CommentResponse {
    fn from(c: Comment) -> (r: Self) {
        CommentResponse {
            id: c.id,
            post_id: c.post_id,
            body: c.body,
            created_at: c.created_at,
            updated_at: c.updated_at,
        }
    }
}

impl vstd::std_specs::convert::FromSpecImpl<Comment> for CommentResponse {
    open spec fn obeys_from_spec() -> bool {
        true
    }

    open spec fn from_spec(c: Comment) -> Self {
        comment_response_of(c)
    }
}

} // verus!
