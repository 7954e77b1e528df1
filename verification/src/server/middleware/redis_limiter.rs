use vstd::prelude::*;
use crate::config::rate_limit::RateLimitConfig;
use crate::infrastructure::redis::rate_limiter::RateLimitResult;
use crate::trusted::text::text_starts_with;
use crate::utils::decimal::{decimal, decimal_text};

verus! {

/// Whether `p` is a prefix of `s`.
pub open spec fn has_prefix(s: Seq<char>, p: Seq<char>) -> bool {
    p.len() <= s.len() && s.subrange(0, p.len() as int) == p
}

/// The limit and the window (in seconds) of a request path: the burst of the
/// authentication group for paths under "/auth", of the health group under
/// "/health", and the global one otherwise; always a one-second window.
pub open spec fn route_limit(path: Seq<char>, rl: RateLimitConfig) -> (u64, u64) {
    if has_prefix(path, "/auth"@) {
        (rl.auth_burst as u64, 1)
    } else if has_prefix(path, "/health"@) {
        (rl.health_burst as u64, 1)
    } else {
        (rl.global_burst as u64, 1)
    }
}

/// The limit and window that apply to a request path.
pub fn route_limits(path: &str, rl: &RateLimitConfig) -> (r: (u64, u64))
    ensures
        r == route_limit(path@, *rl),
{
    if text_starts_with(path, "/auth") {
        (rl.auth_burst as u64, 1)
    } else if text_starts_with(path, "/health") {
        (rl.health_burst as u64, 1)
    } else {
        (rl.global_burst as u64, 1)
    }
}

/// What a response says of the limit: the limit, what is left of it, and
/// whether the request is refused (answered 429 with these headers).
pub struct RateLimitHeaders {
    pub limit: u64,
    pub remaining: u64,
    pub refused: bool,
}

/// What is left of a limit after `current` requests; never below zero.
pub open spec fn remaining_of(limit: u64, current: u64) -> u64 {
    if current >= limit {
        0
    } else {
        (limit - current) as u64
    }
}

/// The headers of a checked request.
pub fn rate_limit_headers(limit: u64, status: &RateLimitResult) -> (r: RateLimitHeaders)
    ensures
        r.limit == limit,
        r.remaining == remaining_of(limit, status.current),
        r.refused == !status.allowed,
{
    RateLimitHeaders {
        limit,
        remaining: limit.saturating_sub(status.current),
        refused: !status.allowed,
    }
}

/// What the middleware does with a request once the cache has answered.
pub enum LimitAction {
    /// The cache gave no count: answer 500.
    Fail,
    /// Answer 429 with these headers.
    Refuse(RateLimitHeaders),
    /// Pass the request on and add these headers to the response.
    Forward(RateLimitHeaders),
}

/// Whether `h` are the headers of a request under `limit` whose count is `current`.
pub open spec fn headers_for(h: RateLimitHeaders, limit: u64, current: u64) -> bool {
    h.limit == limit && h.remaining == remaining_of(limit, current)
}

/// What to do with a request under `limit`, given the cache's answer (`None`
/// where the cache could not be asked): fail without a count, refuse with
/// the headers where the count is over the limit, else forward with them.
pub fn limit_action(limit: u64, checked: Option<RateLimitResult>) -> (r: LimitAction)
    ensures
        match checked {
            None => r is Fail,
            Some(s) => if s.allowed {
                r matches LimitAction::Forward(h) && headers_for(h, limit, s.current) && !h.refused
            } else {
                r matches LimitAction::Refuse(h) && headers_for(h, limit, s.current) && h.refused
            },
        },
{
    match checked {
        None => LimitAction::Fail,
        Some(status) => {
            let info = rate_limit_headers(limit, &status);
            if info.refused {
                LimitAction::Refuse(info)
            } else {
                LimitAction::Forward(info)
            }
        },
    }
}

impl RateLimitHeaders {
    /// The value of the "X-RateLimit-Limit" header.
    pub fn limit_text(&self) -> (r: String)
        ensures
            r@ == decimal(self.limit as nat),
    {
        decimal_text(self.limit)
    }

    /// The value of the "X-RateLimit-Remaining" header.
    pub fn remaining_text(&self) -> (r: String)
        ensures
            r@ == decimal(self.remaining as nat),
    {
        decimal_text(self.remaining)
    }
}

} // verus!
