//! Numbered paging of posts.

use vstd::prelude::*;

verus! {

/// The query of the numbered post list.
#[derive(Debug)]
pub struct ListPostsQuery {
    pub page: i64,
    pub limit: i64,
}

/// The page when the query gives none.
pub fn default_page() -> (p: i64)
    ensures
        p == 1,
{
    1
}

/// The page size when the query gives none.
pub fn default_limit() -> (l: i64)
    ensures
        l == 10,
{
    10
}

impl ListPostsQuery {
    /// The query with defaults for what is absent.
    pub fn with_defaults(page: Option<i64>, limit: Option<i64>) -> (q: ListPostsQuery)
        ensures
            q.page == (match page {
                Some(p) => p,
                None => 1,
            }),
            q.limit == (match limit {
                Some(l) => l,
                None => 10,
            }),
    {
        ListPostsQuery {
            page: match page {
                Some(p) => p,
                None => default_page(),
            },
            limit: match limit {
                Some(l) => l,
                None => default_limit(),
            },
        }
    }
}

} // verus!
