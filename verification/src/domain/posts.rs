//! Posts as the board stores and returns them.

use vstd::prelude::*;

verus! {

/// A stored post. Instants are microseconds since the Unix epoch (UTC).
#[derive(Debug)]
pub struct Post {
    pub id: i64,
    pub title: String,
    pub body: String,
    pub author_id: i64,
    pub created_at: i64,
    pub updated_at: i64,
}

impl Clone for Post {
    fn clone(&self) -> (r: Self)
        ensures
            r == *self,
    {
        Post {
            id: self.id,
            title: self.title.clone(),
            body: self.body.clone(),
            author_id: self.author_id,
            created_at: self.created_at,
            updated_at: self.updated_at,
        }
    }
}

/// The request to write a post. The title may not be blank and has at most
/// 200 characters once trimmed; the content has at most 10000 characters.
#[derive(Debug)]
pub struct CreatePostInput {
    pub title: String,
    pub content: String,
}

/// The request to change a post: each field that is present replaces the
/// stored one.
#[derive(Debug)]
pub struct UpdatePostInput {
    pub title: Option<String>,
    pub body: Option<String>,
}

/// A post as the API returns it.
#[derive(Debug)]
pub struct PostResponse {
    pub id: i64,
    pub title: String,
    pub body: String,
    pub author_id: i64,
    pub created_at: i64,
    pub updated_at: i64,
}

/// The API form of `p`.
pub open spec fn response_of(p: Post) -> PostResponse {
    PostResponse {
        id: p.id,
        title: p.title,
        body: p.body,
        author_id: p.author_id,
        created_at: p.created_at,
        updated_at: p.updated_at,
    }
}

impl From<Post> for PostResponse {
    fn from(p: Post) -> (r: Self) {
        PostResponse {
            id: p.id,
            title: p.title,
            body: p.body,
            author_id: p.author_id,
            created_at: p.created_at,
            updated_at: p.updated_at,
        }
    }
}

impl vstd::std_specs::convert::FromSpecImpl<Post> for PostResponse {
    open spec fn obeys_from_spec() -> bool {
        true
    }

    open spec fn from_spec(p: Post) -> Self {
        response_of(p)
    }
}

} // verus!
