//! Only local clients may reach the guarded endpoints.

use vstd::prelude::*;

verus! {

/// The client addresses let through: the IPv4 and IPv6 loopback.
pub open spec fn ip_allowed(ip: Seq<char>) -> bool {
    ip == "127.0.0.1"@ || ip == "::1"@
}

/// The guard's answer to a request.
#[derive(Debug)]
pub enum IpGuardDecision {
    /// Let the request through.
    Forward,
    /// Answer with this HTTP status and the JSON body
    /// `{"error": error, "message": message}`; the request goes no further.
    Reject { status: u16, error: String, message: String },
}

/// `d` refuses the request with `403`, error `forbidden` and `message`.
pub open spec fn is_refusal(d: IpGuardDecision, message: Seq<char>) -> bool {
    d matches IpGuardDecision::Reject { status, error, message: m } && status == 403 && error@
        == "forbidden"@ && m@ == message
}

/// The message when the client address is unknown.
pub open spec fn unknown_ip_message() -> Seq<char> {
    "IP를 확인할 수 없습니다."@
}

/// The message when the client address is not let through.
pub open spec fn refused_ip_message() -> Seq<char> {
    "접근이 허용되지 않은 IP입니다."@
}

/// The guard of the admin endpoints.
#[derive(Debug, Clone, Copy)]
pub struct IpGuardLayer;

impl IpGuardLayer {
    /// Decides on a request from `client_ip` (the text of the peer address,
    /// absent when the connection did not record it).
    pub fn decide(&self, client_ip: Option<&str>) -> (d: IpGuardDecision)
        ensures
            match client_ip {
                None => is_refusal(d, unknown_ip_message()),
                Some(ip) => if ip_allowed(ip@) {
                    d is Forward
                } else {
                    is_refusal(d, refused_ip_message())
                },
            },
    {
        match client_ip {
            None => IpGuardDecision::Reject {
                status: 403,
                error: "forbidden".to_owned(),
                message: "IP를 확인할 수 없습니다.".to_owned(),
            },
            Some(ip) => {
                let allowed = "127.0.0.1".to_owned();
                let loopback6 = "::1".to_owned();
                let given = ip.to_owned();
                if given == allowed || given == loopback6 {
                    IpGuardDecision::Forward
                } else {
                    IpGuardDecision::Reject {
                        status: 403,
                        error: "forbidden".to_owned(),
                        message: "접근이 허용되지 않은 IP입니다.".to_owned(),
                    }
                }
            },
        }
    }
}

} // verus!
