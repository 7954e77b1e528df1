use vstd::prelude::*;

verus! {

/// The layout of keys in the cache.
pub struct RedisKeys;

impl RedisKeys {
    /// The key of a session: "auth:session:" and the token.
    pub fn session(token: &str) -> (r: String)
        ensures
            r@ == "auth:session:"@ + token@,
    {
        let mut s = String::from_str("auth:session:");
        s.append(token);
        s
    }

    /// The key of a user's profile: "user:profile:" and the id.
    pub fn user_profile(id: &str) -> (r: String)
        ensures
            r@ == "user:profile:"@ + id@,
    {
        let mut s = String::from_str("user:profile:");
        s.append(id);
        s
    }

    /// The key of a rate-limit counter: "rl:", the path, ":" and the address.
    pub fn rate_limit(ip: &str, path: &str) -> (r: String)
        ensures
            r@ == "rl:"@ + path@ + ":"@ + ip@,
    {
        let mut s = String::from_str("rl:");
        s.append(path);
        s.append(":");
        s.append(ip);
        s
    }
}

} // verus!
