//! Per-client admission control: one token bucket per client address, kept
//! by governor's keyed rate limiter.

use vstd::prelude::*;
use std::sync::Arc;
use governor::clock::DefaultClock;
use governor::state::keyed::DashMapStateStore;
use governor::{Quota, RateLimiter as KeyedLimiter};

verus! {

#[verifier::external_type_specification]
#[verifier::external_body]
pub struct ExQuota(Quota);

/// The buckets of every client, with the shared quota.
#[verifier::external_body]
pub struct ClientBuckets {
    limiter: Arc<KeyedLimiter<String, DashMapStateStore<String>, DefaultClock>>,
}

/// Relies on governor's RateLimiter::keyed: an empty set of buckets, each
/// to be made with `quota` on a client's first request.
#[verifier::external_body]
fn keyed_buckets(quota: Quota) -> ClientBuckets {
    ClientBuckets { limiter: Arc::new(KeyedLimiter::keyed(quota)) }
}

/// Relies on governor's RateLimiter::check_key: takes one token from the
/// client's bucket where one is left. The answer depends on the clock.
#[verifier::external_body]
fn take_token(buckets: &ClientBuckets, client: &String) -> bool {
    buckets.limiter.check_key(client).is_ok()
}

/// What becomes of a request at the rate limiter.
#[derive(Debug, Clone, Copy, PartialEq, Eq, Structural)]
pub enum Admission {
    /// Pass the request on, and its response back unchanged.
    Forward,
    /// The client's bucket is empty: answer "too many requests".
    TooManyRequests,
    /// The connection gave no client address: answer "bad request".
    MissingClient,
}

/// The admission of a request from what is known of its client and of its
/// bucket.
pub open spec fn admission_of(client_known: bool, token_taken: bool) -> Admission {
    if !client_known {
        Admission::MissingClient
    } else if token_taken {
        Admission::Forward
    } else {
        Admission::TooManyRequests
    }
}

/// Decides a request: no client address is a bad request; otherwise it is
/// forwarded exactly when a token was taken from the client's bucket.
pub fn admission(client_known: bool, token_taken: bool) -> (r: Admission)
    ensures
        r == admission_of(client_known, token_taken),
{
    if !client_known {
        Admission::MissingClient
    } else if token_taken {
        Admission::Forward
    } else {
        Admission::TooManyRequests
    }
}

impl Admission {
    /// The HTTP status of a refused request; none for a forwarded one.
    pub fn status(&self) -> (r: Option<u16>)
        ensures
            match self {
                Admission::Forward => r.is_none(),
                Admission::TooManyRequests => r == Some(429u16),
                Admission::MissingClient => r == Some(400u16),
            },
    {
        match self {
            Admission::Forward => None,
            Admission::TooManyRequests => Some(429),
            Admission::MissingClient => Some(400),
        }
    }
}

/// The rate limiter shared by every request: a quota fixed at start and one
/// bucket per client address.
pub struct RateLimiterLayer {
    clients: ClientBuckets,
}

impl RateLimiterLayer {
    /// A limiter that gives every client `quota`.
    pub fn new(quota: Quota) -> Self {
        RateLimiterLayer { clients: keyed_buckets(quota) }
    }

    /// Decides a request from the client address its connection gave, if
    /// any, taking a token from that client's bucket. A request without an
    /// address takes no token.
    pub fn check_client(&self, client: Option<&str>) -> (r: Admission)
        ensures
            client.is_none() <==> r == Admission::MissingClient,
    {
        match client {
            None => admission(false, false),
            Some(addr) => {
                let key = addr.to_owned();
                let taken = take_token(&self.clients, &key);
                admission(true, taken)
            },
        }
    }
}

} // verus!
