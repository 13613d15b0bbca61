//! The errors that the HTTP layer answers with, and the answer each gets.

use vstd::prelude::*;
use vstd::string::*;

use crate::repository::posts::RepositoryError;
use crate::service::error::ServiceError;
use crate::text::{format_i64, signed_decimal};

verus! {

/// A request that failed, as the HTTP layer sees it.
#[derive(Debug)]
pub enum AppError {
    NotFound { entity: String, id: i64 },
    Validation(String),
    Unauthorized,
    Forbidden,
    Conflict(String),
    PasswordHash(String),
    /// An internal failure, kept as its text.
    Internal(String),
}

/// The JSON body of an error answer.
#[derive(Debug)]
pub struct AppErrorResponse {
    pub error: String,
    pub message: String,
}

/// The HTTP status of each error.
pub open spec fn status_of(e: AppError) -> u16 {
    match e {
        AppError::NotFound { .. } => 404,
        AppError::Validation(_) => 422,
        AppError::Unauthorized => 401,
        AppError::Forbidden => 403,
        AppError::Conflict(_) => 409,
        AppError::PasswordHash(_) => 500,
        AppError::Internal(_) => 500,
    }
}

/// The `error` field of each answer.
pub open spec fn error_kind_of(e: AppError) -> Seq<char> {
    match e {
        AppError::NotFound { .. } => "not_found"@,
        AppError::Validation(_) => "validation_error"@,
        AppError::Unauthorized => "unauthorized"@,
        AppError::Forbidden => "forbidden"@,
        AppError::Conflict(_) => "conflict"@,
        AppError::PasswordHash(_) => "internal_error"@,
        AppError::Internal(_) => "internal_error"@,
    }
}

/// The `message` field of each answer: internal failures are not
/// described to the client.
pub open spec fn message_of(e: AppError) -> Seq<char> {
    match e {
        AppError::NotFound { entity, id } => entity@ + "(id="@ + signed_decimal(id as int)
            + ")를 찾을 수 없습니다"@,
        AppError::Validation(m) => m@,
        AppError::Unauthorized => "인증이 필요합니다"@,
        AppError::Forbidden => "권한이 없습니다"@,
        AppError::Conflict(m) => m@,
        AppError::PasswordHash(_) => "서버 내부 오류가 발생했습니다"@,
        AppError::Internal(_) => "서버 내부 오류가 발생했습니다"@,
    }
}

/// The text of each error (its description for logs).
pub open spec fn description_of(e: AppError) -> Seq<char> {
    match e {
        AppError::NotFound { entity, id } => entity@ + " (id="@ + signed_decimal(id as int)
            + ")을 찾을 수 없습니다"@,
        AppError::Validation(m) => "입력값 검증 실패: "@ + m@,
        AppError::Unauthorized => "인증이 필요합니다"@,
        AppError::Forbidden => "권한이 없습니다"@,
        AppError::Conflict(_) => "이미 존재하는 데이터입니다"@,
        AppError::PasswordHash(_) => "비밀번호 처리 오류"@,
        AppError::Internal(_) => "내부 서버 오류"@,
    }
}

/// The text of a store failure.
pub open spec fn repository_error_text(e: RepositoryError) -> Seq<char> {
    "저장소 오류"@
}

/// The text of a store failure.
pub fn repository_error_message(e: &RepositoryError) -> (s: String)
    ensures
        s@ == repository_error_text(*e),
{
    match e {
        RepositoryError::Backend => "저장소 오류".to_owned(),
    }
}

impl AppError {
    /// The HTTP status of the answer.
    pub fn status_code(&self) -> (s: u16)
        ensures
            s == status_of(*self),
    {
        match self {
            AppError::NotFound { .. } => 404,
            AppError::Validation(_) => 422,
            AppError::Unauthorized => 401,
            AppError::Forbidden => 403,
            AppError::Conflict(_) => 409,
            AppError::PasswordHash(_) => 500,
            AppError::Internal(_) => 500,
        }
    }

    /// Internal failures are logged when they are answered.
    pub fn should_log(&self) -> (b: bool)
        ensures
            b == (status_of(*self) == 500),
    {
        self.status_code() == 500
    }

    /// The JSON body of the answer.
    pub fn response_body(&self) -> (r: AppErrorResponse)
        ensures
            r.error@ == error_kind_of(*self),
            r.message@ == message_of(*self),
    {
        match self {
            AppError::NotFound { entity, id } => {
                let mut message = entity.clone();
                message.append("(id=");
                let digits = format_i64(*id);
                message.append(digits.as_str());
                message.append(")를 찾을 수 없습니다");
                AppErrorResponse { error: "not_found".to_owned(), message }
            },
            AppError::Validation(m) => AppErrorResponse {
                error: "validation_error".to_owned(),
                message: m.clone(),
            },
            AppError::Unauthorized => AppErrorResponse {
                error: "unauthorized".to_owned(),
                message: "인증이 필요합니다".to_owned(),
            },
            AppError::Forbidden => AppErrorResponse {
                error: "forbidden".to_owned(),
                message: "권한이 없습니다".to_owned(),
            },
            AppError::Conflict(m) => AppErrorResponse {
                error: "conflict".to_owned(),
                message: m.clone(),
            },
            AppError::PasswordHash(_) => AppErrorResponse {
                error: "internal_error".to_owned(),
                message: "서버 내부 오류가 발생했습니다".to_owned(),
            },
            AppError::Internal(_) => AppErrorResponse {
                error: "internal_error".to_owned(),
                message: "서버 내부 오류가 발생했습니다".to_owned(),
            },
        }
    }

    /// The status and body of the answer (what `into_response` sends).
    pub fn into_parts(self) -> (r: (u16, AppErrorResponse))
        ensures
            r.0 == status_of(self),
            r.1.error@ == error_kind_of(self),
            r.1.message@ == message_of(self),
    {
        let status = self.status_code();
        let body = self.response_body();
        (status, body)
    }

    /// The error's description.
    pub fn description(&self) -> (s: String)
        ensures
            s@ == description_of(*self),
    {
        match self {
            AppError::NotFound { entity, id } => {
                let mut s = entity.clone();
                s.append(" (id=");
                let digits = format_i64(*id);
                s.append(digits.as_str());
                s.append(")을 찾을 수 없습니다");
                s
            },
            AppError::Validation(m) => {
                let mut s = "입력값 검증 실패: ".to_owned();
                s.append(m.as_str());
                s
            },
            AppError::Unauthorized => "인증이 필요합니다".to_owned(),
            AppError::Forbidden => "권한이 없습니다".to_owned(),
            AppError::Conflict(_) => "이미 존재하는 데이터입니다".to_owned(),
            AppError::PasswordHash(_) => "비밀번호 처리 오류".to_owned(),
            AppError::Internal(_) => "내부 서버 오류".to_owned(),
        }
    }
}

impl AppError {
    /// The error that a service failure becomes: a store failure becomes an
    /// internal error that keeps the failure's text; every other kind keeps
    /// its kind and fields.
    pub fn from_service_error(service_error: ServiceError) -> (r: AppError)
        ensures
            match service_error {
                ServiceError::Repo(e) => r matches AppError::Internal(m) && m@
                    == repository_error_text(e),
                ServiceError::Validation(m) => r == AppError::Validation(m),
                ServiceError::NotFound { entity, id } => r == (AppError::NotFound { entity, id }),
                ServiceError::PasswordHash(m) => r == AppError::PasswordHash(m),
                ServiceError::Forbidden => r == AppError::Forbidden,
            },
    {
        match service_error {
            ServiceError::Repo(err) => AppError::Internal(repository_error_message(&err)),
            ServiceError::Validation(msg) => AppError::Validation(msg),
            ServiceError::NotFound { entity, id } => AppError::NotFound { entity, id },
            ServiceError::PasswordHash(msg) => AppError::PasswordHash(msg),
            ServiceError::Forbidden => AppError::Forbidden,
        }
    }
}

/// Each kind of failure has its own HTTP status: 403 means the requester
/// may not do this, 401 that it is not signed in, 404 that the thing is
/// missing, 422 that the input breaks a rule, 409 a conflict, and 500 an
/// internal failure; no two of these kinds share a status.
pub proof fn law_status_tells_failures_apart(e: AppError, s: u16)
    requires
        call_ensures(AppError::status_code, (&e,), s),
    ensures
        s == 403 <==> e is Forbidden,
        s == 401 <==> e is Unauthorized,
        s == 404 <==> e is NotFound,
        s == 422 <==> e is Validation,
        s == 409 <==> e is Conflict,
        s == 500 <==> (e is PasswordHash || e is Internal),
{
}

/// The answer sent for a failure carries that same status.
pub proof fn law_answer_status_tells_failures_apart(e: AppError, r: (u16, AppErrorResponse))
    requires
        call_ensures(AppError::into_parts, (e,), r),
    ensures
        r.0 == 403 <==> e is Forbidden,
        r.0 == 401 <==> e is Unauthorized,
        r.0 == 404 <==> e is NotFound,
        r.0 == 422 <==> e is Validation,
        r.0 == 409 <==> e is Conflict,
        r.0 == 500 <==> (e is PasswordHash || e is Internal),
{
}

} // verus!
