use vstd::prelude::*;

verus! {

/// The answer of the cache's counting script: whether the request passes,
/// and the count in the current window.
#[derive(Debug, Clone, Copy)]
pub struct RateLimitResult {
    pub allowed: bool,
    pub current: u64,
}

/// A rate limiter over the cache service that counts requests with a script,
/// sent by its hash once the cache has it.
pub struct RedisRateLimiter<R> {
    redis: R,
    script_hash: String,
}

impl<R> RedisRateLimiter<R> {
    /// The service that the limiter uses.
    pub closed spec fn connection(&self) -> R {
        self.redis
    }

    /// The hash under which the script is called; empty where loading failed.
    pub closed spec fn hash(&self) -> Seq<char> {
        self.script_hash@
    }

    /// A limiter over `redis`, given what loading the script answered: its
    /// hash, or nothing where loading failed (then the hash is empty).
    pub fn new(redis: R, loaded: Option<String>) -> (r: Self)
        ensures
            r.connection() == redis,
            r.hash() == match loaded {
                Some(h) => h@,
                None => Seq::<char>::empty(),
            },
    {
        let script_hash = match loaded {
            Some(h) => h,
            None => String::new(),
        };
        RedisRateLimiter { redis, script_hash }
    }

    /// The service.
    pub fn client(&self) -> (r: &R)
        ensures
            *r == self.connection(),
    {
        &self.redis
    }

    /// The script's hash.
    pub fn script_hash(&self) -> (r: &str)
        ensures
            r@ == self.hash(),
    {
        self.script_hash.as_str()
    }

    /// The decision for the count that the script returned: the count read
    /// as unsigned, passing when it is at most the limit.
    pub fn verdict(&self, count: i64, limit: u64) -> (r: RateLimitResult)
        ensures
            r.current == count as u64,
            r.allowed == (count as u64 <= limit),
    {
        let current = count as u64;
        RateLimitResult { allowed: current <= limit, current }
    }

    /// The counter key of a route and a client: "rl:", prefix, ":", route, ":", address.
    pub fn make_key(&self, prefix: &str, route: &str, ip: &str) -> (r: String)
        ensures
            r@ == "rl:"@ + prefix@ + ":"@ + route@ + ":"@ + ip@,
    {
        let mut s = String::from_str("rl:");
        s.append(prefix);
        s.append(":");
        s.append(route);
        s.append(":");
        s.append(ip);
        s
    }
}

} // verus!
