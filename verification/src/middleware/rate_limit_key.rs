//! How the rate limiter tells clients apart.

use vstd::prelude::*;

use crate::middleware::rate_limit_error::RateLimitFailure;
use crate::text::{lemma_split_at_first_shape, split_at_first, split_once, trim, trimmed};

verus! {

/// The first entry of a comma-separated list.
pub open spec fn first_entry(list: Seq<char>) -> Seq<char> {
    match split_at_first(list, ',') {
        Some((first, _)) => first,
        None => list,
    }
}

/// Keys clients by the first address of `X-Forwarded-For`, else by the
/// peer address.
#[derive(Debug, Clone, Copy)]
pub struct ForwardedIpKeyExtractor;

impl ForwardedIpKeyExtractor {
    /// The key of a request: the first entry of its `X-Forwarded-For`
    /// header, trimmed, when the header is present and readable; else the
    /// text of the peer address; with neither, the client cannot be
    /// identified.
    pub fn extract_key(&self, forwarded_for: Option<&str>, peer_ip: Option<String>) -> (r: Result<
        String,
        RateLimitFailure,
    >)
        ensures
            match forwarded_for {
                Some(list) => r matches Ok(k) && k@ == trimmed(first_entry(list@)),
                None => match peer_ip {
                    Some(ip) => r == Ok::<String, RateLimitFailure>(ip),
                    None => r matches Err(RateLimitFailure::UnableToExtractKey),
                },
            },
    {
        match forwarded_for {
            Some(list) => {
                let first = match split_once(list, ',') {
                    Some((first, _)) => first,
                    None => list,
                };
                Ok(trim(first).to_owned())
            },
            None => match peer_ip {
                Some(ip) => Ok(ip),
                None => Err(RateLimitFailure::UnableToExtractKey),
            },
        }
    }
}

} // verus!

verus! {

/// The rate-limit key of a request with an `X-Forwarded-For` list is the
/// trimmed text before the list's first comma (the whole list when it has
/// none), however many entries follow; without the header it is the peer
/// address, and with neither the client cannot be identified.
pub proof fn law_key_is_first_forwarded_entry(
    x: ForwardedIpKeyExtractor,
    forwarded_for: Option<&str>,
    peer_ip: Option<String>,
    r: Result<String, RateLimitFailure>,
)
    requires
        call_ensures(ForwardedIpKeyExtractor::extract_key, (&x, forwarded_for, peer_ip), r),
    ensures
        forwarded_for matches Some(list) ==> r matches Ok(k) && exists|i: int|
            0 <= i <= list@.len() && (forall|m: int| 0 <= m < i ==> list@[m] != ',') && (i
                == list@.len() || list@[i] == ',') && k@ == trimmed(#[trigger] list@.take(i)),
        (forwarded_for is None && peer_ip is Some) ==> r == Ok::<String, RateLimitFailure>(
            peer_ip->0,
        ),
        forwarded_for is None && peer_ip is None ==> r matches Err(
            RateLimitFailure::UnableToExtractKey,
        ),
{
    if let Some(list) = forwarded_for {
        let l = list@;
        lemma_split_at_first_shape(l, ',');
        let i = first_entry(l).len() as int;
        match split_at_first(l, ',') {
            Some((a, b)) => {
                assert(l.take(i) =~= a);
                assert(l[i] == (a + seq![','] + b)[i]);
            },
            None => {
                assert(l.take(i) =~= l);
            },
        }
        assert(l.take(i) == first_entry(l));
    }
}

} // verus!
