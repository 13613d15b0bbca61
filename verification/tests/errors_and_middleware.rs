use rustboard_api::error::AppError;
use rustboard_api::middleware::ip_guard::{IpGuardDecision, IpGuardLayer};
use rustboard_api::middleware::rate_limit_error::{rete_limit_error_response, RateLimitFailure};
use rustboard_api::middleware::rate_limit_key::ForwardedIpKeyExtractor;
use rustboard_api::middleware::request_id::{AddRequestIdLayer, RequestID};
use rustboard_api::repository::posts::RepositoryError;
use rustboard_api::service::error::ServiceError;

#[test]
fn error_statuses_and_bodies() {
    let e = AppError::NotFound {
        entity: "post".into(),
        id: -3,
    };
    assert_eq!(e.status_code(), 404);
    let b = e.response_body();
    assert_eq!(b.error, "not_found");
    assert_eq!(b.message, "post(id=-3)를 찾을 수 없습니다");
    assert_eq!(e.description(), "post (id=-3)을 찾을 수 없습니다");
    let (status, body) = AppError::Validation("bad".into()).into_parts();
    assert_eq!((status, body.error.as_str(), body.message.as_str()), (422, "validation_error", "bad"));
    assert_eq!(AppError::Unauthorized.status_code(), 401);
    assert_eq!(AppError::Forbidden.response_body().message, "권한이 없습니다");
    assert_eq!(AppError::Conflict("dup".into()).status_code(), 409);
    let internal = AppError::Internal("db down".into());
    assert_eq!(internal.status_code(), 500);
    assert!(internal.should_log());
    assert!(!AppError::Forbidden.should_log());
    assert_eq!(internal.response_body().message, "서버 내부 오류가 발생했습니다");
    assert_eq!(AppError::PasswordHash("x".into()).response_body().error, "internal_error");
}

#[test]
fn documented_error_answers() {
    let (status, body) = AppError::NotFound { entity: "comment".into(), id: 1 }.into_parts();
    assert_eq!(
        (status, body.error.as_str(), body.message.as_str()),
        (404, "not_found", "comment(id=1)를 찾을 수 없습니다")
    );
    for e in [AppError::Internal("secret detail".into()), AppError::PasswordHash("other".into())] {
        let (status, body) = e.into_parts();
        assert_eq!(
            (status, body.error.as_str(), body.message.as_str()),
            (500, "internal_error", "서버 내부 오류가 발생했습니다")
        );
    }
}

#[test]
fn service_errors_map_to_app_errors() {
    assert!(matches!(
        AppError::from_service_error(ServiceError::Repo(RepositoryError::Backend)),
        AppError::Internal(m) if m == "저장소 오류"
    ));
    assert!(matches!(
        AppError::from_service_error(ServiceError::Forbidden),
        AppError::Forbidden
    ));
    assert!(matches!(
        AppError::from_service_error(ServiceError::NotFound { entity: "post".into(), id: 1 }),
        AppError::NotFound { id: 1, .. }
    ));
    assert!(matches!(
        AppError::from_service_error(ServiceError::PasswordHash("h".into())),
        AppError::PasswordHash(m) if m == "h"
    ));
}

#[test]
fn only_loopback_passes_the_ip_guard() {
    let guard = IpGuardLayer;
    assert!(matches!(guard.decide(Some("127.0.0.1")), IpGuardDecision::Forward));
    assert!(matches!(guard.decide(Some("::1")), IpGuardDecision::Forward));
    assert!(matches!(
        guard.decide(Some("10.0.0.1")),
        IpGuardDecision::Reject { status: 403, error, message }
            if error == "forbidden" && message == "접근이 허용되지 않은 IP입니다."
    ));
    assert!(matches!(
        guard.decide(None),
        IpGuardDecision::Reject { status: 403, error, message }
            if error == "forbidden" && message == "IP를 확인할 수 없습니다."
    ));
}

#[test]
fn rate_limit_answers() {
    let r = rete_limit_error_response(RateLimitFailure::TooManyRequests {
        retry_after: Some("30".into()),
    });
    assert_eq!(r.status, 429);
    assert_eq!(r.error, "too_many_requests");
    assert_eq!(r.retry_after_seconds.as_deref(), Some("30"));
    assert_eq!(r.retry_after_header, Some(30));
    let r = rete_limit_error_response(RateLimitFailure::TooManyRequests { retry_after: None });
    assert_eq!(r.retry_after_seconds.as_deref(), Some("1"));
    assert_eq!(r.retry_after_header, Some(1));
    let r = rete_limit_error_response(RateLimitFailure::TooManyRequests {
        retry_after: Some("soon".into()),
    });
    assert_eq!(r.retry_after_header, None);
    let r = rete_limit_error_response(RateLimitFailure::UnableToExtractKey);
    assert_eq!((r.status, r.error.as_str()), (403, "unable_to_extract_key"));
    let r = rete_limit_error_response(RateLimitFailure::Other);
    assert_eq!((r.status, r.error.as_str()), (500, "rate_limit_error"));
}

#[test]
fn rate_limit_keys() {
    let k = ForwardedIpKeyExtractor;
    assert_eq!(
        k.extract_key(Some(" 1.2.3.4 , 5.6.7.8"), Some("9.9.9.9".into())).unwrap(),
        "1.2.3.4"
    );
    assert_eq!(k.extract_key(Some("1.2.3.4"), None).unwrap(), "1.2.3.4");
    assert_eq!(k.extract_key(None, Some("9.9.9.9".into())).unwrap(), "9.9.9.9");
    assert!(matches!(k.extract_key(None, None), Err(RateLimitFailure::UnableToExtractKey)));
}

fn is_uuid_v4(s: &str) -> bool {
    let b: Vec<char> = s.chars().collect();
    b.len() == 36
        && b.iter().enumerate().all(|(i, c)| {
            if [8, 13, 18, 23].contains(&i) {
                *c == '-'
            } else {
                c.is_ascii_digit() || ('a'..='f').contains(c)
            }
        })
        && b[14] == '4'
}

#[test]
fn request_ids() {
    let a = AddRequestIdLayer.next_id();
    let b = AddRequestIdLayer.next_id();
    assert!(is_uuid_v4(&a));
    assert_ne!(a, b);
    assert_eq!(RequestID::from_header(Some("given".into())).0, "given");
    assert!(is_uuid_v4(&RequestID::from_header(None).0));
    assert!(is_uuid_v4(&AddRequestIdLayer.next_id()));
}
