use rustboard_api::domain::post::{PostRow, PostWithAuthor};
use rustboard_api::domain::role::{role_of, Role};
use rustboard_api::repository::posts::RepositoryError;
use rustboard_api::service::error::ServiceError;
use rustboard_api::service::post::{found_post_row, listed_page};

fn row(id: i64) -> PostRow {
    PostRow {
        id,
        title: "t".into(),
        content: "c".into(),
        author_id: 3,
        created_at: 10,
        updated_at: 20,
    }
}

fn joined(id: i64) -> PostWithAuthor {
    PostWithAuthor {
        id,
        title: format!("t{id}"),
        content: "c".into(),
        author_id: 3,
        created_at: 10,
        updated_at: 20,
        author_email: "a@b.c".into(),
        author_display_name: "d".into(),
    }
}

#[test]
fn found_row_is_handed_back() {
    let r = found_post_row(Ok(Some(row(5))), 5).unwrap();
    assert_eq!((r.id, r.author_id, r.created_at), (5, 3, 10));
}

#[test]
fn missing_row_names_the_posts_table() {
    match found_post_row(Ok(None), 9) {
        Err(ServiceError::NotFound { entity, id }) => {
            assert_eq!(entity, "posts");
            assert_eq!(id, 9);
        }
        other => panic!("unexpected {other:?}"),
    }
}

#[test]
fn store_failure_is_passed_on() {
    let r = found_post_row(Err(RepositoryError::Backend), 1);
    assert!(matches!(r, Err(ServiceError::Repo(RepositoryError::Backend))));
}

#[test]
fn listed_page_keeps_order_and_counts() {
    let page = listed_page(Ok((vec![joined(4), joined(2)], 12)), 3).unwrap();
    assert_eq!((page.total, page.page, page.posts.len()), (12, 3, 2));
    assert_eq!(page.posts[0].title, "t4");
    assert_eq!(page.posts[1].title, "t2");
}

#[test]
fn listed_page_passes_store_failure_on() {
    let r = listed_page(Err(RepositoryError::Backend), 1);
    assert!(matches!(r, Err(ServiceError::Repo(_))));
}

#[test]
fn only_the_admin_name_is_an_administrator() {
    assert_eq!(role_of("admin"), Role::Admin);
    assert_eq!(role_of("user"), Role::User);
    assert_eq!(role_of("Admin"), Role::User);
    assert_eq!(role_of(""), Role::User);
}
