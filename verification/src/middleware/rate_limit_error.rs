//! The answer to a client that the rate limiter stopped.

use vstd::prelude::*;

use crate::text::{parse_u64, parse_u64_spec};

verus! {

/// Why the rate limiter stopped a request.
#[derive(Debug)]
pub enum RateLimitFailure {
    /// Too many requests; `retry_after` is the limiter's `retry-after`
    /// header, when it gave a readable one.
    TooManyRequests { retry_after: Option<String> },
    /// The client could not be identified.
    UnableToExtractKey,
    /// Any other failure of the limiter.
    Other,
}

/// The answer: status, JSON body fields, and the `retry-after` header to
/// set.
#[derive(Debug)]
pub struct RateLimitReply {
    pub status: u16,
    pub error: String,
    pub message: String,
    /// The body's `retry_after_seconds`, when the body has one.
    pub retry_after_seconds: Option<String>,
    /// The `retry-after` header, set when the wait reads as a number.
    pub retry_after_header: Option<u64>,
}

/// The wait that a limited client is told: the limiter's header, or `1`.
pub open spec fn retry_after_text(retry_after: Option<String>) -> Seq<char> {
    match retry_after {
        Some(t) => t@,
        None => "1"@,
    }
}

/// The answer to each failure.
pub fn rete_limit_error_response(err: RateLimitFailure) -> (r: RateLimitReply)
    ensures
        match err {
            RateLimitFailure::TooManyRequests { retry_after } => {
                &&& r.status == 429
                &&& r.error@ == "too_many_requests"@
                &&& r.message@ == "요청이 너무 많습니다. 잠시 후 다시 시도해주세요."@
                &&& r.retry_after_seconds matches Some(w) && w@ == retry_after_text(retry_after)
                &&& r.retry_after_header == parse_u64_spec(retry_after_text(retry_after))
            },
            RateLimitFailure::UnableToExtractKey => {
                &&& r.status == 403
                &&& r.error@ == "unable_to_extract_key"@
                &&& r.message@ == "요청자를 식별할 수 없습니다."@
                &&& r.retry_after_seconds is None
                &&& r.retry_after_header is None
            },
            RateLimitFailure::Other => {
                &&& r.status == 500
                &&& r.error@ == "rate_limit_error"@
                &&& r.message@ == "Rate Limit 처리 중 오류가 발생했습니다."@
                &&& r.retry_after_seconds is None
                &&& r.retry_after_header is None
            },
        },
{
    match err {
        RateLimitFailure::TooManyRequests { retry_after } => {
            let wait = match retry_after {
                Some(t) => t,
                None => "1".to_owned(),
            };
            let header = parse_u64(wait.as_str());
            RateLimitReply {
                status: 429,
                error: "too_many_requests".to_owned(),
                message: "요청이 너무 많습니다. 잠시 후 다시 시도해주세요.".to_owned(),
                retry_after_seconds: Some(wait),
                retry_after_header: header,
            }
        },
        RateLimitFailure::UnableToExtractKey => RateLimitReply {
            status: 403,
            error: "unable_to_extract_key".to_owned(),
            message: "요청자를 식별할 수 없습니다.".to_owned(),
            retry_after_seconds: None,
            retry_after_header: None,
        },
        RateLimitFailure::Other => RateLimitReply {
            status: 500,
            error: "rate_limit_error".to_owned(),
            message: "Rate Limit 처리 중 오류가 발생했습니다.".to_owned(),
            retry_after_seconds: None,
            retry_after_header: None,
        },
    }
}

} // verus!
