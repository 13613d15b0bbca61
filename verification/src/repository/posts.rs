//! The post store kept in memory.

use std::collections::HashMap;

use vstd::prelude::*;

use crate::domain::posts::{CreatePostInput, Post, UpdatePostInput};

verus! {

broadcast use vstd::std_specs::hash::group_hash_axioms;

/// A failure of the storage backend.
#[derive(Debug, Clone, Copy, PartialEq, Eq, Structural)]
pub enum RepositoryError {
    Backend,
}

/// `p` comes before the page cursor `(instant, id)`: it was created
/// strictly earlier and has a strictly smaller id. Without a cursor every
/// post qualifies.
pub open spec fn before_cursor(p: Post, cursor: Option<(i64, i64)>) -> bool {
    match cursor {
        Some((ts, cursor_id)) => p.created_at < ts && p.id < cursor_id,
        None => true,
    }
}

/// The posts of `posts` with ids in `0..n` that come before `cursor`, in
/// increasing id order.
pub open spec fn ordered_before(posts: Map<i64, Post>, cursor: Option<(i64, i64)>, n: int) -> Seq<
    Post,
>
    decreases n,
{
    if n <= 0 {
        Seq::empty()
    } else {
        let prev = ordered_before(posts, cursor, n - 1);
        let id = (n - 1) as i64;
        if posts.contains_key(id) && before_cursor(posts[id], cursor) {
            prev.push(posts[id])
        } else {
            prev
        }
    }
}

/// The first page of `s`: its first `limit` posts, or all of them when
/// `limit` is negative (a negative limit reads as a huge page size).
pub open spec fn first_page(s: Seq<Post>, limit: i32) -> Seq<Post> {
    if limit < 0 || s.len() <= limit {
        s
    } else {
        s.take(limit as int)
    }
}

/// `p` after an edit: each present field replaces the stored one and the
/// edit instant becomes `updated_at`.
pub open spec fn revised(p: Post, title: Option<String>, body: Option<String>, now: i64) -> Post {
    Post {
        title: match title {
            Some(t) => t,
            None => p.title,
        },
        body: match body {
            Some(b) => b,
            None => p.body,
        },
        updated_at: now,
        ..p
    }
}

/// Posts held in memory, keyed by id; ids are handed out in increasing
/// order starting at 0.
pub struct InMemoryPostRepository {
    next_id: i64,
    items: HashMap<i64, Post>,
}

impl InMemoryPostRepository {
    /// The stored posts by id.
    pub closed spec fn posts(&self) -> Map<i64, Post> {
        self.items@
    }

    /// The id that the next stored post gets.
    pub closed spec fn next_id(&self) -> int {
        self.next_id as int
    }

    /// Every stored post sits under its own id, and all ids were handed out
    /// already.
    pub open spec fn wf(&self) -> bool {
        &&& 0 <= self.next_id() <= i64::MAX
        &&& forall|id: i64| #[trigger]
            self.posts().contains_key(id) ==> 0 <= id < self.next_id() && self.posts()[id].id == id
    }

    /// What `list` returns for `cursor` and `limit`.
    pub open spec fn listing(&self, cursor: Option<(i64, i64)>, limit: i32) -> Seq<Post> {
        first_page(ordered_before(self.posts(), cursor, self.next_id()), limit)
    }

    /// An empty store.
    pub fn new() -> (r: Self)
        ensures
            r.wf(),
            r.posts() == Map::<i64, Post>::empty(),
            r.next_id() == 0,
    {
        InMemoryPostRepository { next_id: 0, items: HashMap::new() }
    }

    /// Whether another post can get an id.
    pub fn can_insert(&self) -> (b: bool)
        ensures
            b == (self.next_id() < i64::MAX),
    {
        self.next_id < i64::MAX
    }

    /// Stores a new post under the next id, created and last changed at the
    /// instant `now` (microseconds; the caller reads the clock).
    pub fn insert(&mut self, input: CreatePostInput, author_id: i64, now: i64) -> (r: Result<
        Post,
        RepositoryError,
    >)
        requires
            old(self).wf(),
            old(self).next_id() < i64::MAX,
        ensures
            final(self).wf(),
            final(self).next_id() == old(self).next_id() + 1,
            r matches Ok(p) && {
                &&& p.id == old(self).next_id()
                &&& p.title == input.title
                &&& p.body == input.content
                &&& p.author_id == author_id
                &&& p.created_at == now
                &&& p.updated_at == now
                &&& final(self).posts() == old(self).posts().insert(p.id, p)
            },
    {
        let id = self.next_id;
        self.next_id = id + 1;
        let post = Post {
            id,
            title: input.title,
            body: input.content,
            author_id,
            created_at: now,
            updated_at: now,
        };
        self.items.insert(id, post.clone());
        proof {
            assert forall|k: i64| #[trigger] self.posts().contains_key(k) implies 0 <= k
                < self.next_id() && self.posts()[k].id == k by {
                if k != id {
                    assert(old(self).posts().contains_key(k));
                }
            }
        }
        Ok(post)
    }

    /// The post stored under `id`, if any.
    pub fn find_by_id(&self, id: i64) -> (r: Result<Option<Post>, RepositoryError>)
        ensures
            r == Ok::<Option<Post>, RepositoryError>(
                if self.posts().contains_key(id) {
                    Some(self.posts()[id])
                } else {
                    None
                },
            ),
    {
        match self.items.get(&id) {
            Some(p) => Ok(Some(p.clone())),
            None => Ok(None),
        }
    }

    /// The posts before `cursor`, in increasing id order, at most `limit`
    /// of them (all of them for a negative `limit`).
    pub fn list(&self, cursor: Option<(i64, i64)>, limit: i32) -> (r: Result<
        Vec<Post>,
        RepositoryError,
    >)
        requires
            self.wf(),
            limit != 0,
        ensures
            r matches Ok(v) && v@ == self.listing(cursor, limit),
    {
        let mut out: Vec<Post> = Vec::new();
        let mut i: i64 = 0;
        while i < self.next_id
            invariant
                self.wf(),
                limit != 0,
                0 <= i <= self.next_id(),
                out@ == ordered_before(self.posts(), cursor, i as int),
                limit < 0 || out.len() < limit,
            decreases self.next_id() - i,
        {
            match self.items.get(&i) {
                Some(p) => {
                    let keep = match cursor {
                        Some((ts, cursor_id)) => p.created_at < ts && p.id < cursor_id,
                        None => true,
                    };
                    if keep {
                        out.push(p.clone());
                    }
                },
                None => {},
            }
            i += 1;
            if limit > 0 && out.len() == limit as usize {
                proof {
                    lemma_ordered_before_prefix(self.posts(), cursor, i as int, self.next_id());
                    assert(ordered_before(self.posts(), cursor, self.next_id()).take(limit as int)
                        =~= out@);
                }
                return Ok(out);
            }
        }
        Ok(out)
    }

    /// Applies the present fields of `input` to the post stored under `id`
    /// and marks it changed at the instant `now`; `None` when there is no
    /// such post.
    pub fn update(&mut self, id: i64, input: UpdatePostInput, now: i64) -> (r: Result<
        Option<Post>,
        RepositoryError,
    >)
        requires
            old(self).wf(),
        ensures
            final(self).wf(),
            final(self).next_id() == old(self).next_id(),
            match r {
                Ok(Some(p)) => {
                    &&& old(self).posts().contains_key(id)
                    &&& p == revised(old(self).posts()[id], input.title, input.body, now)
                    &&& final(self).posts() == old(self).posts().insert(id, p)
                },
                Ok(None) => !old(self).posts().contains_key(id) && final(self).posts() == old(
                    self,
                ).posts(),
                Err(_) => false,
            },
    {
        let mut post = match self.items.get(&id) {
            Some(p) => p.clone(),
            None => {
                return Ok(None);
            },
        };
        match input.title {
            Some(t) => {
                post.title = t;
            },
            None => {},
        }
        match input.body {
            Some(b) => {
                post.body = b;
            },
            None => {},
        }
        post.updated_at = now;
        self.items.insert(id, post.clone());
        proof {
            assert forall|k: i64| #[trigger] self.posts().contains_key(k) implies 0 <= k
                < self.next_id() && self.posts()[k].id == k by {
                assert(old(self).posts().contains_key(k));
            }
        }
        Ok(Some(post))
    }

    /// Removes the post stored under `id`; tells whether there was one.
    pub fn delete(&mut self, id: i64) -> (r: Result<bool, RepositoryError>)
        requires
            old(self).wf(),
        ensures
            final(self).wf(),
            final(self).next_id() == old(self).next_id(),
            r == Ok::<bool, RepositoryError>(old(self).posts().contains_key(id)),
            final(self).posts() == old(self).posts().remove(id),
    {
        let removed = self.items.remove(&id);
        proof {
            assert forall|k: i64| #[trigger] self.posts().contains_key(k) implies 0 <= k
                < self.next_id() && self.posts()[k].id == k by {
                assert(old(self).posts().contains_key(k));
            }
        }
        Ok(removed.is_some())
    }
}

proof fn lemma_ordered_before_prefix(
    posts: Map<i64, Post>,
    cursor: Option<(i64, i64)>,
    n: int,
    m: int,
)
    requires
        0 <= n <= m,
    ensures
        ordered_before(posts, cursor, n).len() <= ordered_before(posts, cursor, m).len(),
        ordered_before(posts, cursor, m).take(ordered_before(posts, cursor, n).len() as int)
            == ordered_before(posts, cursor, n),
    decreases m - n,
{
    if n < m {
        lemma_ordered_before_prefix(posts, cursor, n, m - 1);
        let a = ordered_before(posts, cursor, n);
        let b = ordered_before(posts, cursor, m - 1);
        let c = ordered_before(posts, cursor, m);
        assert(c.take(a.len() as int) =~= b.take(a.len() as int));
    } else {
        assert(ordered_before(posts, cursor, m).take(ordered_before(posts, cursor, n).len() as int)
            =~= ordered_before(posts, cursor, n));
    }
}

} // verus!
