use rustboard_api::domain::posts::{CreatePostInput, UpdatePostInput};
use rustboard_api::domain::role::Role;
use rustboard_api::repository::posts::InMemoryPostRepository;
use rustboard_api::service::error::ServiceError;
use rustboard_api::service::posts::PostService;

fn make_service() -> PostService {
    let repo = InMemoryPostRepository::new();
    PostService::new(repo)
}

fn input(title: &str, content: &str) -> CreatePostInput {
    CreatePostInput {
        title: title.into(),
        content: content.into(),
    }
}

#[test]
fn blank_title_is_rejected() {
    let mut service = make_service();
    let result = service.create(
        CreatePostInput {
            title: "   ".into(),
            content: "본문".into(),
        },
        1,
        1_000,
    );
    assert!(matches!(result, Err(ServiceError::Validation(msg)) if msg.contains("비어")));
}

#[test]
fn create_then_get() {
    let mut service = make_service();
    let created = service
        .create(
            CreatePostInput {
                title: "제목".into(),
                content: "본문".into(),
            },
            1,
            1_000,
        )
        .expect("생성 성공");
    let fetched = service.get_by_id(created.id).expect("조회 성공");
    assert_eq!(fetched.title, "제목");
    assert_eq!(fetched.body, "본문");
}

#[test]
fn create_trims_title_and_numbers_from_zero() {
    let mut service = make_service();
    let first = service.create(input("  hello \t", "body"), 7, 1_000).unwrap();
    let second = service.create(input("second", ""), 8, 1_000).unwrap();
    assert_eq!(first.id, 0);
    assert_eq!(second.id, 1);
    assert_eq!(first.title, "hello");
    assert_eq!(first.author_id, 7);
    assert_eq!(first.created_at, 1_000);
    assert_eq!(first.updated_at, 1_000);
}

#[test]
fn create_rejects_long_title_and_body() {
    let mut service = make_service();
    let long_title = "가".repeat(201);
    let result = service.create(input(&long_title, "x"), 1, 1_000);
    assert!(matches!(result, Err(ServiceError::Validation(m)) if m == "제목이 200자를 초과했습니다"));
    let ok_title = format!("  {}  ", "가".repeat(200));
    assert!(service.create(input(&ok_title, "x"), 1, 1_000).is_ok());
    let long_body = "b".repeat(10001);
    let result = service.create(input("t", &long_body), 1, 1_000);
    assert!(matches!(result, Err(ServiceError::Validation(m)) if m == "본문이 10000자를 초과했습니다"));
    assert!(service.create(input("t", &"b".repeat(10000)), 1, 1_000).is_ok());
}

#[test]
fn get_missing_post_is_not_found() {
    let service = make_service();
    let result = service.get_by_id(42);
    assert!(matches!(result, Err(ServiceError::NotFound { entity, id: 42 }) if entity == "post"));
}

#[test]
fn update_by_author_changes_given_fields_only() {
    let mut service = make_service();
    let p = service.create(input("title", "body"), 3, 1_000).unwrap();
    let updated = service
        .update(
            p.id,
            UpdatePostInput {
                title: None,
                body: Some("new body".into()),
            },
            3,
            &Role::User,
            2_000,
        )
        .unwrap();
    assert_eq!(updated.title, "title");
    assert_eq!(updated.body, "new body");
    assert_eq!(updated.created_at, p.created_at);
    assert_eq!(updated.updated_at, 2_000);
    assert_eq!(updated.author_id, 3);
    let fetched = service.get_by_id(p.id).unwrap();
    assert_eq!(fetched.body, "new body");
}

#[test]
fn update_keeps_title_untrimmed() {
    let mut service = make_service();
    let p = service.create(input("title", "body"), 3, 1_000).unwrap();
    let updated = service
        .update(
            p.id,
            UpdatePostInput {
                title: Some("  spaced  ".into()),
                body: None,
            },
            3,
            &Role::User,
            2_000,
        )
        .unwrap();
    assert_eq!(updated.title, "  spaced  ");
}

#[test]
fn update_by_stranger_is_forbidden_and_admin_may() {
    let mut service = make_service();
    let p = service.create(input("title", "body"), 3, 1_000).unwrap();
    let edit = || UpdatePostInput {
        title: Some("x".into()),
        body: None,
    };
    assert!(matches!(
        service.update(p.id, edit(), 4, &Role::User, 2_000),
        Err(ServiceError::Forbidden)
    ));
    assert_eq!(service.get_by_id(p.id).unwrap().title, "title");
    assert_eq!(service.update(p.id, edit(), 4, &Role::Admin, 2_000).unwrap().title, "x");
}

#[test]
fn update_validation_comes_first() {
    let mut service = make_service();
    let empty = UpdatePostInput {
        title: None,
        body: None,
    };
    assert!(matches!(
        service.update(99, empty, 1, &Role::Admin, 2_000),
        Err(ServiceError::Validation(m)) if m == "제목이 비어 있습니다"
    ));
    let blank = UpdatePostInput {
        title: Some(" ".into()),
        body: None,
    };
    assert!(matches!(
        service.update(99, blank, 1, &Role::Admin, 2_000),
        Err(ServiceError::Validation(m)) if m == "제목이 비어 있습니다"
    ));
    let fine = UpdatePostInput {
        title: Some("ok".into()),
        body: None,
    };
    assert!(matches!(
        service.update(99, fine, 1, &Role::Admin, 2_000),
        Err(ServiceError::NotFound { id: 99, .. })
    ));
}

#[test]
fn delete_checks_owner_then_removes() {
    let mut service = make_service();
    let p = service.create(input("title", "body"), 3, 1_000).unwrap();
    assert!(matches!(service.delete(p.id, 5, &Role::User), Err(ServiceError::Forbidden)));
    assert!(service.get_by_id(p.id).is_ok());
    assert!(service.delete(p.id, 3, &Role::User).is_ok());
    assert!(matches!(service.get_by_id(p.id), Err(ServiceError::NotFound { .. })));
    assert!(matches!(service.delete(p.id, 3, &Role::User), Err(ServiceError::NotFound { .. })));
}

#[test]
fn list_pages_in_id_order() {
    let mut service = make_service();
    for i in 0..5 {
        service.create(input(&format!("t{i}"), "b"), 1, 1_000 + i).unwrap();
    }
    service.delete(2, 1, &Role::User).unwrap();
    let page = service.list_recent(None, 3).unwrap();
    let ids: Vec<i64> = page.iter().map(|p| p.id).collect();
    assert_eq!(ids, vec![0, 1, 3]);
    let all = service.list_recent(None, -1).unwrap();
    let ids: Vec<i64> = all.iter().map(|p| p.id).collect();
    assert_eq!(ids, vec![0, 1, 3, 4]);
    let far_future = i64::MAX;
    let before = service.list_recent(Some((far_future, 3)), 10).unwrap();
    let ids: Vec<i64> = before.iter().map(|p| p.id).collect();
    assert_eq!(ids, vec![0, 1]);
    let none = service.list_recent(Some((0, 10)), 10).unwrap();
    assert!(none.is_empty());
}
