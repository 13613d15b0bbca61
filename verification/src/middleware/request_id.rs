//! Request ids: the client's `x-request-id`, or a fresh random UUID.

use vstd::prelude::*;

verus! {

/// `c` is a lowercase hexadecimal digit.
pub open spec fn is_lower_hex(c: char) -> bool {
    (48 <= c as u32 <= 57) || (97 <= c as u32 <= 102)
}

/// `s` is a version-4 UUID in lowercase hyphenated form.
pub open spec fn is_uuid_v4_text(s: Seq<char>) -> bool {
    &&& s.len() == 36
    &&& forall|i: int|
        0 <= i < 36 ==> if i == 8 || i == 13 || i == 18 || i == 23 {
            #[trigger] s[i] == '-'
        } else {
            is_lower_hex(s[i])
        }
    &&& s[14] == '4'
}

/// Calls `Uuid::new_v4().to_string()`. The id is random; uuid's source
/// writes it as 32 lowercase hex digits in groups of 8-4-4-4-12 with the
/// version digit `4`.
#[verifier::external_body]
pub(crate) fn new_request_id() -> (s: String)
    ensures
        is_uuid_v4_text(s@),
{
    uuid::Uuid::new_v4().to_string()
}

/// The id of a request.
#[derive(Debug)]
pub struct RequestID(pub String);

impl RequestID {
    /// The id of a request whose `x-request-id` header reads as `header`:
    /// the header when present, else a fresh UUID.
    pub fn from_header(header: Option<String>) -> (r: RequestID)
        ensures
            match header {
                Some(h) => r.0 == h,
                None => is_uuid_v4_text(r.0@),
            },
    {
        match header {
            Some(h) => RequestID(h),
            None => RequestID(new_request_id()),
        }
    }
}

/// Adds a fresh request id to every response.
#[derive(Debug, Clone, Copy)]
pub struct AddRequestIdLayer;

impl AddRequestIdLayer {
    /// The id given to the next request.
    pub fn next_id(&self) -> (s: String)
        ensures
            is_uuid_v4_text(s@),
    {
        new_request_id()
    }
}

} // verus!
