use rustboard_api::auth::password::VerifyResult;
use rustboard_api::config::{bind_addr_text, resolve_config, ConfigError};
use rustboard_api::domain::comment::{Comment, CommentResponse, CreateCommentInput};
use rustboard_api::domain::notification::{ClientMessage, EventType, Notification};
use rustboard_api::domain::post::{page_offset, post_list_response, PostWithAuthor};
use rustboard_api::domain::user::User;
use rustboard_api::handler::ws::{NotificationSession, SessionAction, SessionEvent};
use rustboard_api::routes::auth::token_response;
use rustboard_api::routes::meta::{health, version};
use rustboard_api::service::comment::{comment_added, require_parent, validate_comment};
use rustboard_api::service::comments;
use rustboard_api::service::error::ServiceError;
use rustboard_api::service::user::{finish_login, require_account, signup_role};

fn note(post_id: i64) -> Notification {
    Notification {
        event_type: EventType::CommentAdded,
        post_id,
        comment_id: Some(1),
        actor: "a".into(),
        message: "m".into(),
    }
}

#[test]
fn session_forwards_only_followed_posts() {
    let mut s = NotificationSession::new();
    assert!(matches!(s.step(SessionEvent::Notification(note(1))), SessionAction::Idle));
    assert!(matches!(
        s.step(SessionEvent::Client(ClientMessage::Subscribe { post_id: 1 })),
        SessionAction::Idle
    ));
    assert!(matches!(
        s.step(SessionEvent::Notification(note(1))),
        SessionAction::Send(n) if n.post_id == 1
    ));
    assert!(matches!(s.step(SessionEvent::Notification(note(2))), SessionAction::Idle));
    s.step(SessionEvent::Client(ClientMessage::Unsubscribe { post_id: 1 }));
    assert!(matches!(s.step(SessionEvent::Notification(note(1))), SessionAction::Idle));
    assert!(matches!(s.step(SessionEvent::Lagged(3)), SessionAction::Idle));
    assert!(matches!(s.step(SessionEvent::Other), SessionAction::Idle));
    assert!(matches!(s.step(SessionEvent::Close), SessionAction::Stop));
    assert!(matches!(s.step(SessionEvent::ChannelClosed), SessionAction::Stop));
}

#[test]
fn session_heartbeat() {
    let mut s = NotificationSession::new();
    assert!(matches!(s.step(SessionEvent::Heartbeat), SessionAction::SendPing));
    assert!(matches!(s.step(SessionEvent::Pong), SessionAction::Idle));
    assert!(matches!(s.step(SessionEvent::Heartbeat), SessionAction::SendPing));
    assert!(matches!(s.step(SessionEvent::Heartbeat), SessionAction::Stop));
}

#[test]
fn comment_rules() {
    let blank = CreateCommentInput { body: " \n".into() };
    assert!(matches!(validate_comment(&blank), Err(ServiceError::Validation(m)) if m == "댓글이 비어 있습니다"));
    assert!(matches!(comments::validate_comment(&blank), Err(ServiceError::Validation(m)) if m == "내용이 없습니다"));
    let fine = CreateCommentInput { body: " hi".into() };
    assert!(validate_comment(&fine).is_ok());
    assert!(comments::validate_comment(&fine).is_ok());
    assert!(matches!(require_parent(false, 9), Err(ServiceError::NotFound { entity, id: 9 }) if entity == "comment"));
    assert!(matches!(comments::require_post(false, 9), Err(ServiceError::NotFound { entity, id: 9 }) if entity == "post"));
    assert!(require_parent(true, 9).is_ok());
    let n = comment_added(12, 3, "철수");
    assert_eq!(n.message, "철수님이 12번 게시글에 댓글을 달았습니다");
    assert_eq!((n.post_id, n.comment_id, n.actor.as_str()), (12, Some(3), "철수"));
    assert!(matches!(n.event_type, EventType::CommentAdded));
    let c = Comment {
        id: 1,
        post_id: 2,
        body: "b".into(),
        created_at: 3,
        updated_at: 4,
    };
    let r = CommentResponse::from(c);
    assert_eq!((r.id, r.post_id, r.body.as_str(), r.created_at, r.updated_at), (1, 2, "b", 3, 4));
}

fn user() -> User {
    User {
        id: 1,
        email: "e".into(),
        password_hash: "h".into(),
        display_name: "d".into(),
        role: "user".into(),
        created_at: 0,
        updated_at: 0,
    }
}

#[test]
fn login_steps() {
    assert!(matches!(require_account(None), Err(ServiceError::Validation(m)) if m == "이메일 또는 비밀번호가 올바르지 않습니다"));
    assert_eq!(require_account(Some(user())).unwrap().id, 1);
    let migrated = VerifyResult {
        is_valid: true,
        needs_rehash: true,
        new_hash: Some("$argon2id$x".into()),
    };
    let (u, store) = finish_login(user(), Ok(migrated)).unwrap();
    assert_eq!((u.id, store.as_deref()), (1, Some("$argon2id$x")));
    let plain = VerifyResult {
        is_valid: false,
        needs_rehash: false,
        new_hash: None,
    };
    assert_eq!(finish_login(user(), Ok(plain)).unwrap().1, None);
    assert!(matches!(finish_login(user(), Err("boom".into())), Err(ServiceError::PasswordHash(m)) if m == "boom"));
    assert_eq!(signup_role(), "user");
}

#[test]
fn config_defaults() {
    assert_eq!(bind_addr_text(None), "0.0.0.0:3000");
    assert_eq!(bind_addr_text(Some("1.2.3.4:1".into())), "1.2.3.4:1");
    let c = resolve_config(bind_addr_text(None), None, None, Some("postgres://db".into())).unwrap();
    assert_eq!(c.bind_addr, "0.0.0.0:3000");
    assert_eq!(c.service_name, "rustboard-api");
    assert_eq!(c.database_url, "postgres://db");
    let c = resolve_config("1.2.3.4:1".into(), None, Some("svc".into()), Some("u".into())).unwrap();
    assert_eq!((c.bind_addr.as_str(), c.service_name.as_str()), ("1.2.3.4:1", "svc"));
    assert!(matches!(
        resolve_config(bind_addr_text(None), None, None, None),
        Err(ConfigError::Missing(n)) if n == "DATABASE_URL"
    ));
}

#[test]
fn bad_bind_address_is_reported_before_missing_database() {
    let r = resolve_config("nope".into(), Some("invalid socket address syntax".into()), None, None);
    assert!(matches!(
        r,
        Err(ConfigError::Invalid(n, d)) if n == "BIND_ADDR" && d == "invalid socket address syntax"
    ));
}

#[test]
fn config_error_texts() {
    assert_eq!(
        ConfigError::Missing("DATABASE_URL".into()).message(),
        "필수 환경 변수가 없습니다: DATABASE_URL"
    );
    assert_eq!(
        ConfigError::Invalid("BIND_ADDR".into(), "invalid socket address syntax".into()).message(),
        "환경 변수 BIND_ADDR의 형식이 올바르지 않습니다: invalid socket address syntax"
    );
}

#[test]
fn meta_and_tokens() {
    let h = health("rustboard-api");
    assert_eq!((h.status.as_str(), h.service.as_str()), ("ok", "rustboard-api"));
    let v = version("svc", "0.1.0");
    assert_eq!((v.service.as_str(), v.version.as_str()), ("svc", "0.1.0"));
    let t = token_response("tok".into());
    assert_eq!((t.token.as_str(), t.token_type.as_str()), ("tok", "Bearer"));
}

#[test]
fn numbered_pages() {
    assert_eq!(page_offset(1, 10), Some(0));
    assert_eq!(page_offset(3, 10), Some(20));
    assert_eq!(page_offset(0, 10), Some(-10));
    assert_eq!(page_offset(i64::MIN, 0), None);
    assert_eq!(page_offset(i64::MAX, 2), None);
    let rows = vec![PostWithAuthor {
        id: 1,
        title: "t".into(),
        content: "c".into(),
        author_id: 2,
        created_at: 3,
        updated_at: 4,
        author_email: "e".into(),
        author_display_name: "d".into(),
    }];
    let page = post_list_response(rows, 7, 2);
    assert_eq!((page.total, page.page, page.posts.len()), (7, 2, 1));
    assert_eq!((page.posts[0].id, page.posts[0].content.as_str()), (1, "c"));
}
