use vstd::prelude::*;

verus! {

/// A limit: at most `max` requests in each window of `window` nanoseconds
/// (the window is a duration, kept in nanoseconds of a monotonic clock).
#[derive(Clone, Copy, Debug, PartialEq, Eq)]
pub struct RateLimitConfig {
    pub max: u32,
    pub window: u64,
}

/// The request count of one client in one group, since the start of its window.
pub struct Counter {
    pub group: String,
    pub ip: String,
    pub count: u32,
    pub started: u64,
}

/// Request counters per group and client address, kept in memory.
pub struct RateLimiter {
    limits: Vec<Counter>,
}

/// The key of a counter: its group and its client address.
pub open spec fn key_of(c: Counter) -> (Seq<char>, Seq<char>) {
    (c.group@, c.ip@)
}

/// The value of a counter: its count and the start of its window.
pub open spec fn value_of(c: Counter) -> (u32, u64) {
    (c.count, c.started)
}

/// The counters of a list, by key; a later entry for a key hides an earlier one.
pub open spec fn counters_map(s: Seq<Counter>) -> Map<(Seq<char>, Seq<char>), (u32, u64)>
    decreases s.len(),
{
    if s.len() == 0 {
        Map::empty()
    } else {
        counters_map(s.drop_last()).insert(key_of(s.last()), value_of(s.last()))
    }
}

/// No two entries of a list have the same key.
pub open spec fn keys_unique(s: Seq<Counter>) -> bool {
    forall|i: int, j: int|
        0 <= i < s.len() && 0 <= j < s.len() && i != j ==> key_of(#[trigger] s[i]) != key_of(
            #[trigger] s[j],
        )
}

/// The named limit of each endpoint group; any other name gets the global one.
pub open spec fn preset_of(group: Seq<char>) -> RateLimitConfig {
    if group == "auth"@ {
        RateLimitConfig { max: 10, window: 60_000_000_000 }
    } else if group == "reset"@ {
        RateLimitConfig { max: 3, window: 60_000_000_000 }
    } else if group == "notifications"@ {
        RateLimitConfig { max: 30, window: 60_000_000_000 }
    } else if group == "users"@ {
        RateLimitConfig { max: 5, window: 60_000_000_000 }
    } else if group == "health"@ {
        RateLimitConfig { max: 20, window: 30_000_000_000 }
    } else {
        RateLimitConfig { max: 100, window: 60_000_000_000 }
    }
}

/// The limits of the endpoint groups: "auth" 10, "reset" 3, "notifications"
/// 30 and "users" 5 requests per minute, "health" 20 per half minute, and
/// every other group the global 100 per minute (windows in nanoseconds).
pub proof fn law_preset_values(group: Seq<char>)
    ensures
        group == "auth"@ ==> preset_of(group).max == 10 && preset_of(group).window == 60_000_000_000,
        group == "reset"@ ==> preset_of(group).max == 3 && preset_of(group).window == 60_000_000_000,
        group == "notifications"@ ==> preset_of(group).max == 30 && preset_of(group).window
            == 60_000_000_000,
        group == "users"@ ==> preset_of(group).max == 5 && preset_of(group).window == 60_000_000_000,
        group == "health"@ ==> preset_of(group).max == 20 && preset_of(group).window
            == 30_000_000_000,
        group != "auth"@ && group != "reset"@ && group != "notifications"@ && group != "users"@
            && group != "health"@ ==> preset_of(group).max == 100 && preset_of(group).window
            == 60_000_000_000,
{
    reveal_strlit("auth");
    reveal_strlit("reset");
    reveal_strlit("notifications");
    reveal_strlit("users");
    reveal_strlit("health");
    if group == "reset"@ {
        assert(group.len() != "auth"@.len());
    } else if group == "notifications"@ {
        assert(group.len() != "auth"@.len());
        assert(group.len() != "reset"@.len());
    } else if group == "users"@ {
        assert(group.len() != "auth"@.len());
        assert(group[0] != "reset"@[0]);
        assert(group.len() != "notifications"@.len());
    } else if group == "health"@ {
        assert(group.len() != "auth"@.len());
        assert(group.len() != "reset"@.len());
        assert(group.len() != "notifications"@.len());
        assert(group.len() != "users"@.len());
    }
}

/// The named presets, in order.
pub open spec fn preset_table() -> Seq<(Seq<char>, RateLimitConfig)> {
    seq![
        ("global"@, RateLimitConfig { max: 100, window: 60_000_000_000 }),
        ("auth"@, RateLimitConfig { max: 10, window: 60_000_000_000 }),
        ("reset"@, RateLimitConfig { max: 3, window: 60_000_000_000 }),
        ("notifications"@, RateLimitConfig { max: 30, window: 60_000_000_000 }),
        ("users"@, RateLimitConfig { max: 5, window: 60_000_000_000 }),
        ("health"@, RateLimitConfig { max: 20, window: 30_000_000_000 }),
    ]
}

/// Each named preset is the limit that its group gets.
pub proof fn lemma_presets_agree(i: int)
    requires
        0 <= i < preset_table().len(),
    ensures
        preset_of(preset_table()[i].0) == preset_table()[i].1,
{
    reveal_strlit("global");
    reveal_strlit("auth");
    reveal_strlit("reset");
    reveal_strlit("notifications");
    reveal_strlit("users");
    reveal_strlit("health");
    let n = preset_table()[i].0;
    if i == 0 {
        assert(n[0] != "auth"@[0]);
        assert(n[0] != "reset"@[0]);
        assert(n[0] != "users"@[0]);
        assert(n[0] != "health"@[0]);
        assert(n.len() != "notifications"@.len());
    } else if i == 2 {
        assert(n.len() != "auth"@.len());
    } else if i == 3 {
        assert(n.len() != "auth"@.len());
        assert(n.len() != "reset"@.len());
    } else if i == 4 {
        assert(n.len() != "auth"@.len());
        assert(n[0] != "reset"@[0]);
        assert(n.len() != "notifications"@.len());
    } else if i == 5 {
        assert(n.len() != "auth"@.len());
        assert(n.len() != "reset"@.len());
        assert(n.len() != "notifications"@.len());
        assert(n.len() != "users"@.len());
    }
}

/// Nanoseconds from `started` to `now`; none where the clock reads earlier.
pub open spec fn elapsed(started: u64, now: u64) -> int {
    if now >= started {
        now - started
    } else {
        0
    }
}

/// One request at time `now` against a counter (none yet: a fresh one that
/// starts now): a counter whose window has passed starts again from zero;
/// the request is let through exactly when the count is below the limit, and
/// only then counted. Gives the new counter and whether the request passes.
pub open spec fn hit_outcome(prev: Option<(u32, u64)>, cfg: RateLimitConfig, now: u64) -> (
    (u32, u64),
    bool,
) {
    let (c0, t0) = match prev {
        Some(v) => v,
        None => (0u32, now),
    };
    let (c, t) = if elapsed(t0, now) > cfg.window {
        (0u32, now)
    } else {
        (c0, t0)
    };
    if c >= cfg.max {
        ((c, t), false)
    } else {
        (((c + 1) as u32, t), true)
    }
}

/// The counter and the number of requests let through after requests at the
/// given times, one after another, starting from counter `state`.
pub open spec fn run_hits(state: (u32, u64), cfg: RateLimitConfig, times: Seq<u64>) -> (
    (u32, u64),
    nat,
)
    decreases times.len(),
{
    if times.len() == 0 {
        (state, 0)
    } else {
        let (next, pass) = hit_outcome(Some(state), cfg, times[0]);
        let (last, n) = run_hits(next, cfg, times.drop_first());
        (last, n + if pass {
            1nat
        } else {
            0nat
        })
    }
}

/// A client that has used up its limit is refused until its window has
/// passed, and the refused request is not counted.
pub proof fn lemma_exhausted_refuses(count: u32, started: u64, cfg: RateLimitConfig, now: u64)
    requires
        count >= cfg.max,
        elapsed(started, now) <= cfg.window,
    ensures
        hit_outcome(Some((count, started)), cfg, now) == ((count, started), false),
{
}

/// A client seen for the first time, or whose window has passed, is let
/// through (where the limit is not zero) and starts a new window at one.
pub proof fn lemma_new_window_passes(prev: Option<(u32, u64)>, cfg: RateLimitConfig, now: u64)
    requires
        cfg.max > 0,
        prev is None || elapsed((prev->0).1, now) > cfg.window,
    ensures
        hit_outcome(prev, cfg, now) == ((1u32, now), true),
{
}

/// Within one window, at most the limit's worth of requests is let through:
/// from a counter at `count` (at most the limit), requests that all fall in
/// its window pass at most `max - count` times, and each one that passes is
/// counted.
pub proof fn lemma_window_budget(state: (u32, u64), cfg: RateLimitConfig, times: Seq<u64>)
    requires
        state.0 <= cfg.max,
        forall|i: int| 0 <= i < times.len() ==> elapsed(state.1, #[trigger] times[i]) <= cfg.window,
    ensures
        run_hits(state, cfg, times).0.1 == state.1,
        run_hits(state, cfg, times).0.0 == state.0 + run_hits(state, cfg, times).1,
        run_hits(state, cfg, times).1 <= cfg.max - state.0,
    decreases times.len(),
{
    if times.len() > 0 {
        let (next, pass) = hit_outcome(Some(state), cfg, times[0]);
        let rest = times.drop_first();
        assert forall|i: int| 0 <= i < rest.len() implies elapsed(next.1, #[trigger] rest[i])
            <= cfg.window by {
            assert(rest[i] == times[i + 1]);
        }
        lemma_window_budget(next, cfg, rest);
    }
}

/// Within one window, at most five requests of a client to "users" pass:
/// from a counter at `count`, requests that all fall in its window pass at
/// most `5 - count` times.
pub proof fn law_users_window_budget(state: (u32, u64), times: Seq<u64>)
    requires
        state.0 <= 5,
        forall|i: int| 0 <= i < times.len() ==> elapsed(state.1, #[trigger] times[i]) <= 60_000_000_000,
    ensures
        run_hits(state, preset_of("users"@), times).1 <= 5 - state.0,
{
    law_preset_values("users"@);
    lemma_window_budget(state, preset_of("users"@), times);
}

proof fn lemma_lookup(s: Seq<Counter>, i: int)
    requires
        keys_unique(s),
        0 <= i < s.len(),
    ensures
        counters_map(s).dom().contains(key_of(s[i])),
        counters_map(s)[key_of(s[i])] == value_of(s[i]),
    decreases s.len(),
{
    if i < s.len() - 1 {
        let t = s.drop_last();
        assert(t[i] == s[i]);
        assert(keys_unique(t)) by {
            assert forall|a: int, b: int|
                0 <= a < t.len() && 0 <= b < t.len() && a != b implies key_of(#[trigger] t[a])
                != key_of(#[trigger] t[b]) by {
                assert(t[a] == s[a] && t[b] == s[b]);
            }
        }
        lemma_lookup(t, i);
        assert(key_of(s[s.len() - 1]) != key_of(s[i]));
    }
}

proof fn lemma_absent(s: Seq<Counter>, k: (Seq<char>, Seq<char>))
    requires
        forall|i: int| 0 <= i < s.len() ==> key_of(#[trigger] s[i]) != k,
    ensures
        !counters_map(s).dom().contains(k),
    decreases s.len(),
{
    if s.len() > 0 {
        let t = s.drop_last();
        assert forall|i: int| 0 <= i < t.len() implies key_of(#[trigger] t[i]) != k by {
            assert(t[i] == s[i]);
        }
        lemma_absent(t, k);
        assert(key_of(s[s.len() - 1]) != k);
    }
}

proof fn lemma_unique_drop_last(s: Seq<Counter>)
    requires
        keys_unique(s),
        s.len() > 0,
    ensures
        keys_unique(s.drop_last()),
{
    let t = s.drop_last();
    assert forall|a: int, b: int|
        0 <= a < t.len() && 0 <= b < t.len() && a != b implies key_of(#[trigger] t[a]) != key_of(
        #[trigger] t[b],
    ) by {
        assert(t[a] == s[a] && t[b] == s[b]);
    }
}

proof fn lemma_update(s: Seq<Counter>, i: int, c: Counter)
    requires
        keys_unique(s),
        0 <= i < s.len(),
        key_of(c) == key_of(s[i]),
    ensures
        counters_map(s.update(i, c)) =~= counters_map(s).insert(key_of(c), value_of(c)),
        keys_unique(s.update(i, c)),
    decreases s.len(),
{
    let u = s.update(i, c);
    assert(keys_unique(u)) by {
        assert forall|a: int, b: int|
            0 <= a < u.len() && 0 <= b < u.len() && a != b implies key_of(#[trigger] u[a])
            != key_of(#[trigger] u[b]) by {
            if a == i {
                assert(key_of(u[a]) == key_of(s[i]));
            }
            if b == i {
                assert(key_of(u[b]) == key_of(s[i]));
            }
        }
    }
    if i == s.len() - 1 {
        assert(u.drop_last() =~= s.drop_last());
        assert(u.last() == c);
        lemma_unique_drop_last(s);
        assert forall|j: int| 0 <= j < s.drop_last().len() implies key_of(
            #[trigger] s.drop_last()[j],
        ) != key_of(c) by {
            assert(s.drop_last()[j] == s[j]);
        }
        lemma_absent(s.drop_last(), key_of(c));
    } else {
        let t = s.drop_last();
        lemma_unique_drop_last(s);
        assert(t[i] == s[i]);
        lemma_update(t, i, c);
        assert(u.drop_last() =~= t.update(i, c));
        assert(u.last() == s.last());
        assert(key_of(s.last()) != key_of(c));
    }
}

proof fn lemma_push(s: Seq<Counter>, c: Counter)
    requires
        keys_unique(s),
        !counters_map(s).dom().contains(key_of(c)),
    ensures
        counters_map(s.push(c)) =~= counters_map(s).insert(key_of(c), value_of(c)),
        keys_unique(s.push(c)),
{
    let u = s.push(c);
    assert(u.drop_last() =~= s);
    assert forall|j: int| 0 <= j < s.len() implies key_of(#[trigger] s[j]) != key_of(c) by {
        lemma_lookup(s, j);
    }
    assert(keys_unique(u)) by {
        assert forall|a: int, b: int|
            0 <= a < u.len() && 0 <= b < u.len() && a != b implies key_of(#[trigger] u[a])
            != key_of(#[trigger] u[b]) by {
            if a < s.len() {
                assert(u[a] == s[a]);
            }
            if b < s.len() {
                assert(u[b] == s[b]);
            }
        }
    }
}

/// Whether a counter is the one of group `g` and address `a`.
fn counter_is(c: &Counter, g: &String, a: &String) -> (r: bool)
    ensures
        r == (key_of(*c) == (g@, a@)),
{
    c.group == *g && c.ip == *a
}

/// Whether two texts are equal.
fn same_text(a: &str, b: &str) -> (r: bool)
    ensures
        r == (a@ == b@),
{
    let x = String::from_str(a);
    let y = String::from_str(b);
    x == y
}

impl View for RateLimiter {
    type V = Map<(Seq<char>, Seq<char>), (u32, u64)>;

    closed spec fn view(&self) -> Map<(Seq<char>, Seq<char>), (u32, u64)> {
        counters_map(self.limits@)
    }
}

impl Default for RateLimiter {
    fn default() -> (r: Self)
        ensures
            r.wf(),
            r@ == Map::<(Seq<char>, Seq<char>), (u32, u64)>::empty(),
    {
        RateLimiter::new()
    }
}

impl RateLimiter {
    /// The limiter's invariant: one counter per group and address, and no
    /// count above its group's limit.
    pub closed spec fn wf(&self) -> bool {
        &&& keys_unique(self.limits@)
        &&& forall|k: (Seq<char>, Seq<char>)|
            #[trigger] self@.dom().contains(k) ==> self@[k].0 <= preset_of(k.0).max
    }

    /// A limiter with no counters.
    pub fn new() -> (r: Self)
        ensures
            r.wf(),
            r@ == Map::<(Seq<char>, Seq<char>), (u32, u64)>::empty(),
    {
        RateLimiter { limits: Vec::new() }
    }

    /// The named limits of the endpoint groups.
    pub fn presets() -> (r: Vec<(String, RateLimitConfig)>)
        ensures
            r@.len() == preset_table().len(),
            forall|i: int|
                0 <= i < r@.len() ==> (#[trigger] r@[i]).0@ == preset_table()[i].0 && r@[i].1
                    == preset_table()[i].1,
    {
        let mut m: Vec<(String, RateLimitConfig)> = Vec::new();
        m.push((String::from_str("global"), RateLimitConfig { max: 100, window: 60_000_000_000 }));
        m.push((String::from_str("auth"), RateLimitConfig { max: 10, window: 60_000_000_000 }));
        m.push((String::from_str("reset"), RateLimitConfig { max: 3, window: 60_000_000_000 }));
        m.push((String::from_str("notifications"), RateLimitConfig { max: 30, window: 60_000_000_000 }));
        m.push((String::from_str("users"), RateLimitConfig { max: 5, window: 60_000_000_000 }));
        m.push((String::from_str("health"), RateLimitConfig { max: 20, window: 30_000_000_000 }));
        m
    }

    /// The limit of a group: its preset, or the global one for an unknown name.
    pub fn config_for(group: &str) -> (r: RateLimitConfig)
        ensures
            r == preset_of(group@),
    {
        if same_text(group, "auth") {
            RateLimitConfig { max: 10, window: 60_000_000_000 }
        } else if same_text(group, "reset") {
            RateLimitConfig { max: 3, window: 60_000_000_000 }
        } else if same_text(group, "notifications") {
            RateLimitConfig { max: 30, window: 60_000_000_000 }
        } else if same_text(group, "users") {
            RateLimitConfig { max: 5, window: 60_000_000_000 }
        } else if same_text(group, "health") {
            RateLimitConfig { max: 20, window: 30_000_000_000 }
        } else {
            RateLimitConfig { max: 100, window: 60_000_000_000 }
        }
    }

    /// Counts a request of client `ip` to group `group` at time `now`
    /// (nanoseconds of a monotonic clock) and says whether it passes.
    pub fn check(&mut self, group: &str, ip: &str, now: u64) -> (allowed: bool)
        requires
            old(self).wf(),
        ensures
            final(self).wf(),
            ({
                let k = (group@, ip@);
                let prev = if old(self)@.dom().contains(k) {
                    Some(old(self)@[k])
                } else {
                    None
                };
                let (next, pass) = hit_outcome(prev, preset_of(group@), now);
                &&& allowed == pass
                &&& final(self)@ == old(self)@.insert(k, next)
            }),
    {
        let cfg = Self::config_for(group);
        let g = String::from_str(group);
        let a = String::from_str(ip);
        let ghost k = (group@, ip@);
        let n = self.limits.len();
        let mut i: usize = 0;
        while i < n && !counter_is(&self.limits[i], &g, &a)
            invariant
                n == self.limits@.len(),
                i <= n,
                g@ == group@,
                a@ == ip@,
                k == (group@, ip@),
                self.limits@ == old(self).limits@,
                forall|j: int| 0 <= j < i ==> key_of(#[trigger] self.limits@[j]) != k,
            decreases n - i,
        {
            i = i + 1;
        }
        let ghost old_limits = self.limits@;
        let (c0, t0) = if i < n {
            (self.limits[i].count, self.limits[i].started)
        } else {
            (0u32, now)
        };
        proof {
            if i < n {
                lemma_lookup(old_limits, i as int);
                assert(old(self)@.dom().contains(k));
                assert(c0 <= cfg.max);
            } else {
                lemma_absent(old_limits, k);
            }
        }
        let elapsed: u64 = if now >= t0 {
            now - t0
        } else {
            0
        };
        let (c, t) = if elapsed > cfg.window {
            (0u32, now)
        } else {
            (c0, t0)
        };
        let (count, pass) = if c >= cfg.max {
            (c, false)
        } else {
            (c + 1, true)
        };
        let entry = Counter { group: g, ip: a, count, started: t };
        proof {
            assert(key_of(entry) == k);
        }
        if i < n {
            proof {
                lemma_update(old_limits, i as int, entry);
            }
            self.limits.set(i, entry);
        } else {
            proof {
                lemma_push(old_limits, entry);
            }
            self.limits.push(entry);
        }
        proof {
            let m = counters_map(self.limits@);
            assert(m == counters_map(old_limits).insert(k, (count, t)));
            assert(count <= cfg.max);
            assert forall|kk: (Seq<char>, Seq<char>)| #[trigger]
                m.dom().contains(kk) implies m[kk].0 <= preset_of(kk.0).max by {
                if kk != k {
                    assert(counters_map(old_limits).dom().contains(kk));
                }
            }
        }
        pass
    }
}

} // verus!
