//! Writing, reading, changing and removing posts.

use vstd::prelude::*;
use vstd::string::*;

use crate::domain::posts::{CreatePostInput, Post, UpdatePostInput};
use crate::domain::role::Role;
use crate::repository::posts::{
    before_cursor, ordered_before, revised, InMemoryPostRepository,
};
use crate::service::error::ServiceError;
use crate::service::{check_ownership, may_modify};
use crate::text::{all_white_space, lemma_trimmed_empty_iff_all_white_space, trim, trimmed};

verus! {

/// The most characters a (trimmed) title may have.
pub const TITLE_MAX: usize = 200;

/// The most characters a body may have.
pub const BODY_MAX: usize = 10000;

/// The refusal for a blank title.
pub open spec fn empty_title_message() -> Seq<char> {
    "제목이 비어 있습니다"@
}

/// The refusal for a title longer than `TITLE_MAX` characters.
pub open spec fn long_title_message() -> Seq<char> {
    "제목이 200자를 초과했습니다"@
}

/// The refusal for a body longer than `BODY_MAX` characters.
pub open spec fn long_body_message() -> Seq<char> {
    "본문이 10000자를 초과했습니다"@
}

/// What is wrong with `title`, if anything: it is judged once trimmed.
pub open spec fn title_problem(title: Seq<char>) -> Option<Seq<char>> {
    let t = trimmed(title);
    if t.len() == 0 {
        Some(empty_title_message())
    } else if t.len() > TITLE_MAX {
        Some(long_title_message())
    } else {
        None
    }
}

/// What is wrong with `body`, if anything.
pub open spec fn body_problem(body: Seq<char>) -> Option<Seq<char>> {
    if body.len() > BODY_MAX {
        Some(long_body_message())
    } else {
        None
    }
}

/// Why a new post with this title and content is refused, if it is: the
/// title is judged first.
pub open spec fn create_problem(title: Seq<char>, content: Seq<char>) -> Option<Seq<char>> {
    match title_problem(title) {
        Some(m) => Some(m),
        None => body_problem(content),
    }
}

/// The text of an optional field.
pub open spec fn text_of(s: Option<String>) -> Option<Seq<char>> {
    match s {
        Some(t) => Some(t@),
        None => None,
    }
}

/// Why an edit is refused, if it is: an edit that changes nothing is
/// refused as a blank title; a present title is judged before a present
/// body.
pub open spec fn update_problem(title: Option<Seq<char>>, body: Option<Seq<char>>) -> Option<
    Seq<char>,
> {
    if title is None && body is None {
        Some(empty_title_message())
    } else if title is Some && title_problem(title->0) is Some {
        title_problem(title->0)
    } else if body is Some {
        body_problem(body->0)
    } else {
        None
    }
}

/// `r` is the refusal `Validation(m)`.
pub open spec fn is_validation_error<T>(r: Result<T, ServiceError>, m: Seq<char>) -> bool {
    r matches Err(ServiceError::Validation(msg)) && msg@ == m
}

/// `r` is the refusal `NotFound` for the post `id`.
pub open spec fn is_post_not_found<T>(r: Result<T, ServiceError>, id: i64) -> bool {
    r matches Err(ServiceError::NotFound { entity, id: missing }) && entity@ == "post"@ && missing
        == id
}

/// Checks a new post and gives it back with its title trimmed.
pub fn validate_new_post(input: CreatePostInput) -> (r: Result<CreatePostInput, ServiceError>)
    ensures
        match create_problem(input.title@, input.content@) {
            Some(m) => is_validation_error(r, m),
            None => r matches Ok(clean) && clean.title@ == trimmed(input.title@) && clean.content
                == input.content,
        },
{
    let title = trim(input.title.as_str());
    if title.is_empty() {
        return Err(ServiceError::Validation("제목이 비어 있습니다".to_owned()));
    }
    if title.unicode_len() > TITLE_MAX {
        return Err(ServiceError::Validation("제목이 200자를 초과했습니다".to_owned()));
    }
    if input.content.as_str().unicode_len() > BODY_MAX {
        return Err(ServiceError::Validation("본문이 10000자를 초과했습니다".to_owned()));
    }
    let clean_title = title.to_owned();
    Ok(CreatePostInput { title: clean_title, content: input.content })
}

/// Checks an edit.
pub fn validate_update(input: &UpdatePostInput) -> (r: Result<(), ServiceError>)
    ensures
        match update_problem(text_of(input.title), text_of(input.body)) {
            Some(m) => is_validation_error(r, m),
            None => r is Ok,
        },
{
    if input.title.is_none() && input.body.is_none() {
        return Err(ServiceError::Validation("제목이 비어 있습니다".to_owned()));
    }
    match &input.title {
        Some(title) => {
            let trimmed_title = trim(title.as_str());
            if trimmed_title.is_empty() {
                return Err(ServiceError::Validation("제목이 비어 있습니다".to_owned()));
            }
            if trimmed_title.unicode_len() > TITLE_MAX {
                return Err(ServiceError::Validation("제목이 200자를 초과했습니다".to_owned()));
            }
        },
        None => {},
    }
    match &input.body {
        Some(body) => {
            if body.as_str().unicode_len() > BODY_MAX {
                return Err(ServiceError::Validation("본문이 10000자를 초과했습니다".to_owned()));
            }
        },
        None => {},
    }
    Ok(())
}

/// The refusal for a missing post.
pub fn post_not_found(id: i64) -> (e: ServiceError)
    ensures
        is_post_not_found(Err::<(), ServiceError>(e), id),
{
    ServiceError::NotFound { entity: "post".to_owned(), id }
}

/// The post rules over an in-memory store.
pub struct PostService {
    repo: InMemoryPostRepository,
}

impl PostService {
    /// The store behind the service.
    pub closed spec fn store(self) -> InMemoryPostRepository {
        self.repo
    }

    /// The store is well formed.
    pub open spec fn wf(self) -> bool {
        self.store().wf()
    }

    /// A service over `repo`.
    pub fn new(repo: InMemoryPostRepository) -> (s: Self)
        requires
            repo.wf(),
        ensures
            s.wf(),
            s.store() == repo,
    {
        PostService { repo }
    }

    /// Whether another post can still get an id.
    pub fn can_create(&self) -> (b: bool)
        ensures
            b == (self.store().next_id() < i64::MAX),
    {
        self.repo.can_insert()
    }

    /// Writes a post by `requester_id` at the instant `now`: checks it,
    /// trims its title and stores it under a new id.
    pub fn create(&mut self, input: CreatePostInput, requester_id: i64, now: i64) -> (r: Result<
        Post,
        ServiceError,
    >)
        requires
            old(self).wf(),
            old(self).store().next_id() < i64::MAX,
        ensures
            final(self).wf(),
            match create_problem(input.title@, input.content@) {
                Some(m) => is_validation_error(r, m) && final(self).store() == old(self).store(),
                None => r matches Ok(p) && {
                    &&& p.id == old(self).store().next_id()
                    &&& p.title@ == trimmed(input.title@)
                    &&& p.body == input.content
                    &&& p.author_id == requester_id
                    &&& p.created_at == now
                    &&& p.updated_at == now
                    &&& final(self).store().posts() == old(self).store().posts().insert(p.id, p)
                    &&& final(self).store().next_id() == old(self).store().next_id() + 1
                },
            },
    {
        let clean = match validate_new_post(input) {
            Ok(clean) => clean,
            Err(e) => {
                return Err(e);
            },
        };
        match self.repo.insert(clean, requester_id, now) {
            Ok(p) => Ok(p),
            Err(e) => Err(ServiceError::Repo(e)),
        }
    }

    /// The post stored under `id`.
    pub fn get_by_id(&self, id: i64) -> (r: Result<Post, ServiceError>)
        ensures
            if self.store().posts().contains_key(id) {
                r == Ok::<Post, ServiceError>(self.store().posts()[id])
            } else {
                is_post_not_found(r, id)
            },
    {
        match self.repo.find_by_id(id) {
            Ok(Some(p)) => Ok(p),
            Ok(None) => Err(post_not_found(id)),
            Err(e) => Err(ServiceError::Repo(e)),
        }
    }

    /// The posts before `cursor`, in increasing id order, at most `limit`.
    pub fn list_recent(&self, cursor: Option<(i64, i64)>, limit: i32) -> (r: Result<
        Vec<Post>,
        ServiceError,
    >)
        requires
            self.wf(),
            limit != 0,
        ensures
            r matches Ok(v) && v@ == self.store().listing(cursor, limit),
    {
        match self.repo.list(cursor, limit) {
            Ok(v) => Ok(v),
            Err(e) => Err(ServiceError::Repo(e)),
        }
    }

    /// Changes the post `id` on behalf of `requester_id`: the edit is
    /// checked, the post must exist, and the requester must be its author or
    /// an administrator. The fields are stored as given (a title is only
    /// trimmed for the check), and the post is marked changed at `now`.
    pub fn update(
        &mut self,
        id: i64,
        input: UpdatePostInput,
        requester_id: i64,
        requester_role: &Role,
        now: i64,
    ) -> (r: Result<Post, ServiceError>)
        requires
            old(self).wf(),
        ensures
            final(self).wf(),
            final(self).store().next_id() == old(self).store().next_id(),
            match update_problem(text_of(input.title), text_of(input.body)) {
                Some(m) => is_validation_error(r, m) && final(self).store() == old(self).store(),
                None => if !old(self).store().posts().contains_key(id) {
                    is_post_not_found(r, id) && final(self).store() == old(self).store()
                } else if !may_modify(
                    old(self).store().posts()[id].author_id,
                    requester_id,
                    *requester_role,
                ) {
                    r == Err::<Post, ServiceError>(ServiceError::Forbidden) && final(self).store()
                        == old(self).store()
                } else {
                    r matches Ok(p) && {
                        &&& p == revised(
                            old(self).store().posts()[id],
                            input.title,
                            input.body,
                            now,
                        )
                        &&& final(self).store().posts() == old(self).store().posts().insert(id, p)
                    }
                },
            },
    {
        match validate_update(&input) {
            Ok(()) => {},
            Err(e) => {
                return Err(e);
            },
        }
        let post = match self.repo.find_by_id(id) {
            Ok(Some(p)) => p,
            Ok(None) => {
                return Err(post_not_found(id));
            },
            Err(e) => {
                return Err(ServiceError::Repo(e));
            },
        };
        match check_ownership(post.author_id, requester_id, requester_role) {
            Ok(()) => {},
            Err(e) => {
                return Err(e);
            },
        }
        match self.repo.update(id, input, now) {
            Ok(Some(p)) => Ok(p),
            Ok(None) => Err(post_not_found(id)),
            Err(e) => Err(ServiceError::Repo(e)),
        }
    }

    /// Removes the post `id` on behalf of `requester_id`: the post must
    /// exist and the requester must be its author or an administrator.
    pub fn delete(&mut self, id: i64, requester_id: i64, requester_role: &Role) -> (r: Result<
        (),
        ServiceError,
    >)
        requires
            old(self).wf(),
        ensures
            final(self).wf(),
            final(self).store().next_id() == old(self).store().next_id(),
            if !old(self).store().posts().contains_key(id) {
                is_post_not_found(r, id) && final(self).store() == old(self).store()
            } else if !may_modify(
                old(self).store().posts()[id].author_id,
                requester_id,
                *requester_role,
            ) {
                r == Err::<(), ServiceError>(ServiceError::Forbidden) && final(self).store() == old(
                    self,
                ).store()
            } else {
                r is Ok && final(self).store().posts() == old(self).store().posts().remove(id)
            },
    {
        let post = match self.repo.find_by_id(id) {
            Ok(Some(p)) => p,
            Ok(None) => {
                return Err(post_not_found(id));
            },
            Err(e) => {
                return Err(ServiceError::Repo(e));
            },
        };
        match check_ownership(post.author_id, requester_id, requester_role) {
            Ok(()) => {},
            Err(e) => {
                return Err(e);
            },
        }
        match self.repo.delete(id) {
            Ok(_) => Ok(()),
            Err(e) => Err(ServiceError::Repo(e)),
        }
    }
}

/// A title made only of whitespace (or empty) is refused as blank, whatever
/// the body.
pub proof fn law_blank_title_is_refused(title: Seq<char>, content: Seq<char>)
    ensures
        all_white_space(title) <==> create_problem(title, content) == Some(empty_title_message()),
{
    lemma_trimmed_empty_iff_all_white_space(title);
    reveal_strlit("제목이 비어 있습니다");
    reveal_strlit("제목이 200자를 초과했습니다");
    reveal_strlit("본문이 10000자를 초과했습니다");
    assert(empty_title_message().len() == 11);
    assert(long_title_message().len() == 16);
    assert(long_body_message().len() == 18);
}

/// An edit whose body has more than 10000 characters is refused, just as a
/// new post with that body is: with no new title, or one that passes, the
/// refusal is the long-body message, and a bad title is reported first.
/// `PostService::update` answers such an edit with that refusal and leaves
/// the store as it was.
pub proof fn law_long_body_edit_is_refused(title: Option<Seq<char>>, body: Seq<char>)
    requires
        body.len() > 10000,
    ensures
        update_problem(title, Some(body)) is Some,
        (title is None || title_problem(title->0) is None) ==> update_problem(title, Some(body))
            == Some("본문이 10000자를 초과했습니다"@),
        title matches Some(t) ==> update_problem(title, Some(body)) == create_problem(t, body),
{
}

/// `validate_update` refuses every edit whose body has more than 10000
/// characters; without a new title the reason given is the long body.
pub proof fn law_validate_update_refuses_long_body(
    input: UpdatePostInput,
    r: Result<(), ServiceError>,
)
    requires
        call_ensures(validate_update, (&input,), r),
        input.body is Some,
        input.body->0@.len() > 10000,
    ensures
        r matches Err(ServiceError::Validation(_)),
        input.title is None ==> is_validation_error(r, "본문이 10000자를 초과했습니다"@),
{
    law_long_body_edit_is_refused(text_of(input.title), input.body->0@);
}

/// A new post gets an id that no stored post has; afterwards it is found
/// under that id, and every other id finds what it found before.
pub proof fn law_read_after_create(store: InMemoryPostRepository, p: Post)
    requires
        store.wf(),
        p.id == store.next_id(),
    ensures
        !store.posts().contains_key(p.id),
        store.posts().insert(p.id, p).contains_key(p.id),
        store.posts().insert(p.id, p)[p.id] == p,
        forall|id: i64|
            id != p.id ==> (#[trigger] store.posts().insert(p.id, p).contains_key(id)
                == store.posts().contains_key(id)) && (store.posts().contains_key(id) ==> store.posts().insert(
                p.id,
                p,
            )[id] == store.posts()[id]),
{
}

/// After a post is removed, reading it finds nothing, and every other post
/// is untouched.
pub proof fn law_read_after_delete(posts: Map<i64, Post>, id: i64)
    ensures
        !posts.remove(id).contains_key(id),
        forall|other: i64|
            other != id ==> (#[trigger] posts.remove(id).contains_key(other) == posts.contains_key(
                other,
            )) && (posts.contains_key(other) ==> posts.remove(id)[other] == posts[other]),
{
}

/// After an edit of a stored post, reading it gives the edited post, the
/// set of stored ids is the same, and every other post is untouched.
pub proof fn law_read_after_update(posts: Map<i64, Post>, id: i64, p: Post)
    requires
        posts.contains_key(id),
    ensures
        posts.insert(id, p)[id] == p,
        posts.insert(id, p).dom() == posts.dom(),
        forall|other: i64|
            other != id && #[trigger] posts.contains_key(other) ==> posts.insert(id, p)[other]
                == posts[other],
{
    assert(posts.insert(id, p).dom() =~= posts.dom());
}

/// An edit keeps the post's id, author and creation instant; each field
/// that the edit leaves out keeps its stored value.
pub proof fn law_edit_keeps_identity(
    p: Post,
    title: Option<String>,
    body: Option<String>,
    now: i64,
)
    ensures
        revised(p, title, body, now).id == p.id,
        revised(p, title, body, now).author_id == p.author_id,
        revised(p, title, body, now).created_at == p.created_at,
        title is None ==> revised(p, title, body, now).title == p.title,
        body is None ==> revised(p, title, body, now).body == p.body,
        title matches Some(t) ==> revised(p, title, body, now).title == t,
        body matches Some(b) ==> revised(p, title, body, now).body == b,
{
}

proof fn lemma_ordered_before_facts(posts: Map<i64, Post>, cursor: Option<(i64, i64)>, n: int)
    requires
        forall|id: i64| #[trigger] posts.contains_key(id) ==> posts[id].id == id,
        n <= i64::MAX + 1,
    ensures
        ({
            let l = ordered_before(posts, cursor, n);
            &&& forall|i: int, j: int| 0 <= i < j < l.len() ==> #[trigger] l[i].id < #[trigger] l[j].id
            &&& forall|i: int|
                0 <= i < l.len() ==> 0 <= #[trigger] l[i].id < n && posts.contains_key(l[i].id)
                    && posts[l[i].id] == l[i] && before_cursor(l[i], cursor)
            &&& forall|id: i64|
                0 <= id < n && #[trigger] posts.contains_key(id) && before_cursor(posts[id], cursor)
                    ==> l.contains(posts[id])
        }),
    decreases n,
{
    if n > 0 {
        lemma_ordered_before_facts(posts, cursor, n - 1);
        let prev = ordered_before(posts, cursor, n - 1);
        let l = ordered_before(posts, cursor, n);
        let id = (n - 1) as i64;
        if posts.contains_key(id) && before_cursor(posts[id], cursor) {
            assert(l == prev.push(posts[id]));
            assert forall|i: int| 0 <= i < l.len() - 1 implies #[trigger] l[i] == prev[i] by {}
            assert forall|k: i64|
                0 <= k < n && #[trigger] posts.contains_key(k) && before_cursor(
                    posts[k],
                    cursor,
                ) implies l.contains(posts[k]) by {
                if k < n - 1 {
                    let w = choose|w: int| 0 <= w < prev.len() && prev[w] == posts[k];
                    assert(l[w] == posts[k]);
                } else {
                    assert(l[l.len() - 1] == posts[k]);
                }
            }
        }
    }
}

/// A page of posts is in strictly increasing id order; it holds only stored
/// posts that come before the cursor, at most `limit` of them; and no
/// qualifying post is skipped: one that is left out has a larger id than
/// every listed post, and when the page is not full none is left out.
pub proof fn law_listing_in_id_order(
    store: InMemoryPostRepository,
    cursor: Option<(i64, i64)>,
    limit: i32,
)
    requires
        store.wf(),
        limit != 0,
    ensures
        ({
            let l = store.listing(cursor, limit);
            &&& forall|i: int, j: int| 0 <= i < j < l.len() ==> #[trigger] l[i].id < #[trigger] l[j].id
            &&& forall|i: int|
                0 <= i < l.len() ==> store.posts().contains_key(#[trigger] l[i].id) && store.posts()[l[i].id]
                    == l[i] && before_cursor(l[i], cursor)
            &&& limit > 0 ==> l.len() <= limit
            &&& forall|id: i64|
                #[trigger] store.posts().contains_key(id) && before_cursor(store.posts()[id], cursor)
                    && !l.contains(store.posts()[id]) ==> limit > 0 && l.len() == limit && forall|
                    i: int,
                | 0 <= i < l.len() ==> l[i].id < id
        }),
{
    let all = ordered_before(store.posts(), cursor, store.next_id());
    lemma_ordered_before_facts(store.posts(), cursor, store.next_id());
    let l = store.listing(cursor, limit);
    assert forall|id: i64|
        #[trigger] store.posts().contains_key(id) && before_cursor(
            store.posts()[id],
            cursor,
        ) implies all.contains(store.posts()[id]) by {
        assert(0 <= id < store.next_id());
    }
    if limit < 0 || all.len() <= limit {
        assert(l == all);
    } else {
        assert(l == all.take(limit as int));
        assert forall|i: int, j: int| 0 <= i < j < l.len() implies #[trigger] l[i].id
            < #[trigger] l[j].id by {
            assert(l[i] == all[i] && l[j] == all[j]);
        }
        assert forall|i: int| 0 <= i < l.len() implies store.posts().contains_key(
            #[trigger] l[i].id,
        ) && store.posts()[l[i].id] == l[i] && before_cursor(l[i], cursor) by {
            assert(l[i] == all[i]);
        }
        assert forall|id: i64|
            #[trigger] store.posts().contains_key(id) && before_cursor(store.posts()[id], cursor)
                && !l.contains(store.posts()[id]) implies forall|i: int|
            0 <= i < l.len() ==> l[i].id < id by {
            let w = choose|w: int| 0 <= w < all.len() && all[w] == store.posts()[id];
            if w < limit {
                assert(l[w] == all[w]);
            }
            assert forall|i: int| 0 <= i < l.len() implies l[i].id < id by {
                assert(l[i] == all[i]);
                assert(all[w].id == id);
            }
        }
    }
}

} // verus!
