//! Post rows as the SQL store reads them, with and without their author.

use vstd::prelude::*;

verus! {

/// A post row. Instants are microseconds since the Unix epoch (UTC).
#[derive(Debug)]
pub struct PostRow {
    pub id: i64,
    pub title: String,
    pub content: String,
    pub author_id: i64,
    pub created_at: i64,
    pub updated_at: i64,
}

/// A post row joined with its author's account.
#[derive(Debug)]
pub struct PostWithAuthor {
    pub id: i64,
    pub title: String,
    pub content: String,
    pub author_id: i64,
    pub created_at: i64,
    pub updated_at: i64,
    pub author_email: String,
    pub author_display_name: String,
}

/// A numbered page of posts and the number of posts in all.
#[derive(Debug)]
pub struct PostListResponse {
    pub posts: Vec<PostRow>,
    pub total: i64,
    pub page: i64,
}

/// The row of `p` without its author.
pub open spec fn row_of(p: PostWithAuthor) -> PostRow {
    PostRow {
        id: p.id,
        title: p.title,
        content: p.content,
        author_id: p.author_id,
        created_at: p.created_at,
        updated_at: p.updated_at,
    }
}

impl From<PostWithAuthor> for PostRow {
    fn from(value: PostWithAuthor) -> (r: Self) {
        PostRow {
            id: value.id,
            title: value.title,
            content: value.content,
            author_id: value.author_id,
            created_at: value.created_at,
            updated_at: value.updated_at,
        }
    }
}

impl vstd::std_specs::convert::FromSpecImpl<PostWithAuthor> for PostRow {
    open spec fn obeys_from_spec() -> bool {
        true
    }

    open spec fn from_spec(p: PostWithAuthor) -> Self {
        row_of(p)
    }
}

/// The first post of page `page` (counted from 1) with `limit` posts per
/// page; `None` when `page - 1` or the offset does not fit in an `i64`.
pub open spec fn page_offset_spec(page: i64, limit: i64) -> Option<i64> {
    let o = (page - 1) * limit;
    if page > i64::MIN && i64::MIN <= o <= i64::MAX {
        Some(o as i64)
    } else {
        None
    }
}

/// The offset of page `page` with `limit` posts per page.
pub fn page_offset(page: i64, limit: i64) -> (r: Option<i64>)
    ensures
        r == page_offset_spec(page, limit),
{
    match page.checked_sub(1) {
        Some(p) => p.checked_mul(limit),
        None => None,
    }
}

/// The numbered page that the rows `posts` form, out of `total` posts.
pub fn post_list_response(posts: Vec<PostWithAuthor>, total: i64, page: i64) -> (r:
    PostListResponse)
    ensures
        r.total == total,
        r.page == page,
        r.posts.len() == posts.len(),
        forall|i: int| 0 <= i < posts.len() ==> #[trigger] r.posts@[i] == row_of(posts@[i]),
{
    let mut rows: Vec<PostRow> = Vec::new();
    let mut rest = posts;
    let ghost orig = rest@;
    let n = rest.len();
    let mut taken: Vec<PostWithAuthor> = Vec::new();
    while rest.len() > 0
        invariant
            orig.len() == n,
            rest.len() + taken.len() == n,
            forall|i: int| 0 <= i < rest.len() ==> #[trigger] rest@[i] == orig[i],
            forall|i: int| 0 <= i < taken.len() ==> #[trigger] taken@[i] == orig[n - 1 - i],
        decreases rest.len(),
    {
        let p = rest.pop().unwrap();
        taken.push(p);
    }
    while taken.len() > 0
        invariant
            rows.len() + taken.len() == n,
            forall|i: int| 0 <= i < taken.len() ==> #[trigger] taken@[i] == orig[n - 1 - i],
            forall|i: int| 0 <= i < rows.len() ==> #[trigger] rows@[i] == row_of(orig[i]),
        decreases taken.len(),
    {
        let p = taken.pop().unwrap();
        rows.push(PostRow::from(p));
    }
    PostListResponse { posts: rows, total, page }
}

} // verus!
