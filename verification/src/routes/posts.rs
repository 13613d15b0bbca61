//! Listing, reading, writing, changing and removing posts, with cursor
//! paging.

use vstd::prelude::*;

use crate::domain::posts::{response_of, Post, PostResponse};
use crate::service::error::ServiceError;
use crate::service::posts::PostService;
use crate::text::{
    lemma_parse_signed_decimal, lemma_signed_decimal_chars, lemma_split_at_first_join, parse_i64,
    parse_i64_spec, signed_decimal, split_at_first, split_once, format_i64,
};
use crate::time::{in_utc_range, instant_of_seconds, seconds_of, utc_from_seconds, whole_seconds};

verus! {

/// The page size when the query gives none.
pub const DEFAULT_LIMIT: i32 = 20;

/// The largest page size.
pub const MAX_LIMIT: i32 = 100;

/// The query of `GET /posts`: `cursor` is `<unix seconds>_<id>`, `limit`
/// the page size.
#[derive(Debug)]
pub struct ListQuery {
    pub cursor: Option<String>,
    pub limit: Option<i32>,
}

/// A page of posts and the cursor of the next page (absent when the page is
/// empty).
#[derive(Debug)]
pub struct PostListResponse {
    pub posts: Vec<PostResponse>,
    pub next_cursor: Option<String>,
}

/// The page size for a requested `limit`: 20 when absent, else clamped to
/// `1..=100`.
pub open spec fn page_limit(limit: Option<i32>) -> i32 {
    let l = match limit {
        Some(l) => l,
        None => DEFAULT_LIMIT,
    };
    if l < 1 {
        1
    } else if l > MAX_LIMIT {
        MAX_LIMIT
    } else {
        l
    }
}

/// The page size for a requested `limit`.
pub fn effective_limit(limit: Option<i32>) -> (l: i32)
    ensures
        l == page_limit(limit),
        1 <= l <= MAX_LIMIT,
{
    let l = match limit {
        Some(l) => l,
        None => DEFAULT_LIMIT,
    };
    if l < 1 {
        1
    } else if l > MAX_LIMIT {
        MAX_LIMIT
    } else {
        l
    }
}

/// The cursor that a text names: `<seconds>_<id>`, both decimal `i64`s, and
/// the seconds an instant that chrono can represent.
pub open spec fn cursor_of_text(s: Seq<char>) -> Option<(i64, i64)> {
    match split_at_first(s, '_') {
        Some((left, right)) => match (parse_i64_spec(left), parse_i64_spec(right)) {
            (Some(secs), Some(id)) => match instant_of_seconds(secs) {
                Some(ts) => Some((ts, id)),
                None => None,
            },
            _ => None,
        },
        None => None,
    }
}

/// The text of the cursor after the post created at `ts` with id `id`: the
/// whole seconds of `ts`, `_`, then the id.
pub open spec fn cursor_text(ts: i64, id: i64) -> Seq<char> {
    signed_decimal(whole_seconds(ts as int)) + seq!['_'] + signed_decimal(id as int)
}

/// Reads a cursor.
pub fn parse_cursor(s: &str) -> (r: Option<(i64, i64)>)
    ensures
        r == cursor_of_text(s@),
{
    let (left, right) = match split_once(s, '_') {
        Some(parts) => parts,
        None => {
            return None;
        },
    };
    let secs = match parse_i64(left) {
        Some(secs) => secs,
        None => {
            return None;
        },
    };
    let id = match parse_i64(right) {
        Some(id) => id,
        None => {
            return None;
        },
    };
    match utc_from_seconds(secs) {
        Some(ts) => Some((ts, id)),
        None => None,
    }
}

/// Writes the cursor after the post created at `ts` with id `id`.
pub fn format_cursor(ts: i64, id: i64) -> (s: String)
    ensures
        s@ == cursor_text(ts, id),
{
    let mut s = format_i64(seconds_of(ts));
    s.push('_');
    let tail = format_i64(id);
    s.append(tail.as_str());
    assert(s@ =~= cursor_text(ts, id));
    s
}

/// Reading back the cursor written after a post gives its creation instant,
/// rounded down to the second, and its id, for every instant that chrono
/// can represent.
pub proof fn law_cursor_round_trip(ts: i64, id: i64)
    requires
        in_utc_range(whole_seconds(ts as int)),
    ensures
        cursor_of_text(cursor_text(ts, id)) == Some(((whole_seconds(ts as int) * 1_000_000) as i64, id)),
{
    let secs = whole_seconds(ts as int);
    let secs64 = secs as i64;
    lemma_signed_decimal_chars(secs, '_');
    lemma_split_at_first_join(signed_decimal(secs), '_', signed_decimal(id as int));
    lemma_parse_signed_decimal(secs64);
    lemma_parse_signed_decimal(id);
}

/// The cursor after the last post of a page; none for an empty page.
pub fn next_cursor(posts: &Vec<Post>) -> (r: Option<String>)
    ensures
        posts.len() == 0 ==> r is None,
        posts.len() > 0 ==> (r matches Some(c) && c@ == cursor_text(
            posts@.last().created_at,
            posts@.last().id,
        )),
{
    if posts.len() == 0 {
        None
    } else {
        let last = &posts[posts.len() - 1];
        Some(format_cursor(last.created_at, last.id))
    }
}

/// The API form of each post.
pub fn responses_of(posts: Vec<Post>) -> (r: Vec<PostResponse>)
    ensures
        r.len() == posts.len(),
        forall|i: int| 0 <= i < posts.len() ==> #[trigger] r@[i] == response_of(posts@[i]),
{
    let mut r: Vec<PostResponse> = Vec::new();
    let mut i: usize = 0;
    while i < posts.len()
        invariant
            0 <= i <= posts.len(),
            r.len() == i,
            forall|k: int| 0 <= k < i ==> #[trigger] r@[k] == response_of(posts@[k]),
        decreases posts.len() - i,
    {
        r.push(PostResponse::from(posts[i].clone()));
        i += 1;
    }
    r
}

/// `GET /posts`: a page of posts after the query's cursor (a cursor that
/// does not read is ignored), with the cursor of the next page.
pub fn list_posts(service: &PostService, query: &ListQuery) -> (r: Result<
    PostListResponse,
    ServiceError,
>)
    requires
        service.wf(),
    ensures
        r matches Ok(page) && {
            let cursor = match query.cursor {
                Some(c) => cursor_of_text(c@),
                None => None,
            };
            let listed = service.store().listing(cursor, page_limit(query.limit));
            &&& page.posts.len() == listed.len()
            &&& forall|i: int|
                0 <= i < listed.len() ==> #[trigger] page.posts@[i] == response_of(
                    listed[i],
                )
            &&& listed.len() == 0 ==> page.next_cursor is None
            &&& listed.len() > 0 ==> (page.next_cursor matches Some(c) && c@ == cursor_text(
                listed.last().created_at,
                listed.last().id,
            ))
        },
{
    let limit = effective_limit(query.limit);
    let cursor = match &query.cursor {
        Some(c) => parse_cursor(c.as_str()),
        None => None,
    };
    let posts = match service.list_recent(cursor, limit) {
        Ok(posts) => posts,
        Err(e) => {
            return Err(e);
        },
    };
    let next = next_cursor(&posts);
    let responses = responses_of(posts);
    Ok(PostListResponse { posts: responses, next_cursor: next })
}

} // verus!
