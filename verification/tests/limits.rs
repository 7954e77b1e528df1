use http_server_rs::config::rate_limit::RateLimitConfig as Limits;
use http_server_rs::infrastructure::redis::rate_limiter::{RateLimitResult, RedisRateLimiter};
use http_server_rs::infrastructure::redis_rate_limiter::RedisRateLimiter as ServiceRateLimiter;
use http_server_rs::server::middleware::redis_limiter::{
    limit_action, rate_limit_headers, route_limits, LimitAction,
};
use http_server_rs::server::rate_limiter::{RateLimitConfig, RateLimiter};

#[test]
fn presets_table() {
    let p = RateLimiter::presets();
    let names: Vec<&str> = p.iter().map(|(n, _)| n.as_str()).collect();
    assert_eq!(names, ["global", "auth", "reset", "notifications", "users", "health"]);
    assert_eq!(RateLimiter::config_for("auth"), RateLimitConfig { max: 10, window: 60_000_000_000 });
    assert_eq!(RateLimiter::config_for("health"), RateLimitConfig { max: 20, window: 30_000_000_000 });
    assert_eq!(RateLimiter::config_for("nope"), RateLimitConfig { max: 100, window: 60_000_000_000 });
}

/// Nanoseconds in a millisecond: the limiter's clock counts nanoseconds.
const MS: u64 = 1_000_000;

#[test]
fn limiter_counts_and_refuses() {
    let mut rl = RateLimiter::new();
    for i in 0..3 {
        assert!(rl.check("reset", "1.2.3.4", (1000 + i) * MS), "request {i}");
    }
    assert!(!rl.check("reset", "1.2.3.4", 1003 * MS));
    assert!(!rl.check("reset", "1.2.3.4", 61_000 * MS));
    // another client and another group are counted apart
    assert!(rl.check("reset", "5.6.7.8", 1004 * MS));
    assert!(rl.check("auth", "1.2.3.4", 1005 * MS));
    // once the window has passed, the client starts again
    assert!(rl.check("reset", "1.2.3.4", 61_001 * MS));
    assert!(rl.check("reset", "1.2.3.4", 61_002 * MS));
    assert!(rl.check("reset", "1.2.3.4", 61_003 * MS));
    assert!(!rl.check("reset", "1.2.3.4", 61_004 * MS));
}

#[test]
fn limiter_window_of_health() {
    let mut rl = RateLimiter::new();
    for t in 0..20 {
        assert!(rl.check("health", "ip", t));
    }
    // the window ends exactly thirty seconds after its start; one nanosecond later it is over
    assert!(!rl.check("health", "ip", 30_000 * MS));
    assert!(rl.check("health", "ip", 30_000 * MS + 1));
}

#[test]
fn route_limits_by_prefix() {
    let l = Limits {
        global_per_second: 3,
        global_burst: 5,
        health_per_second: 360,
        health_burst: 3,
        auth_per_second: 12,
        auth_burst: 2,
    };
    assert_eq!(route_limits("/auth/login", &l), (2, 1));
    assert_eq!(route_limits("/health", &l), (3, 1));
    assert_eq!(route_limits("/vault/unlock", &l), (5, 1));
    assert_eq!(route_limits("/aut", &l), (5, 1));
}

#[test]
fn script_verdicts_and_headers() {
    let rl = RedisRateLimiter::new((), Some("abc".to_string()));
    assert_eq!(rl.script_hash(), "abc");
    assert_eq!(rl.make_key("api", "/health", "10.0.0.1"), "rl:api:/health:10.0.0.1");
    let v = rl.verdict(3, 5);
    assert!(v.allowed);
    assert_eq!(v.current, 3);
    let v = rl.verdict(6, 5);
    assert!(!v.allowed);
    let h = rate_limit_headers(5, &v);
    assert_eq!(h.remaining, 0);
    assert!(h.refused);
    assert_eq!(h.limit_text(), "5");
    let h = rate_limit_headers(120, &rl.verdict(7, 120));
    assert_eq!(h.remaining_text(), "113");
    assert!(!h.refused);
    // a negative count reads as a huge one
    let v = rl.verdict(-1, 5);
    assert_eq!(v.current, u64::MAX);
    assert!(!v.allowed);
    let empty = ServiceRateLimiter::new(7u8, None);
    assert_eq!(empty.script_hash(), "");
    assert_eq!(*empty.client(), 7u8);
    assert_eq!(empty.make_key("a", "b", "c"), "rl:a:b:c");
    assert!(empty.verdict(5, 5).allowed);
}

#[test]
fn limit_action_per_answer() {
    assert!(matches!(limit_action(5, None), LimitAction::Fail));
    match limit_action(5, Some(RateLimitResult { allowed: true, current: 2 })) {
        LimitAction::Forward(h) => {
            assert_eq!((h.limit, h.remaining, h.refused), (5, 3, false));
            assert_eq!(h.limit_text(), "5");
            assert_eq!(h.remaining_text(), "3");
        }
        _ => panic!("expected forward"),
    }
    match limit_action(5, Some(RateLimitResult { allowed: false, current: 6 })) {
        LimitAction::Refuse(h) => assert_eq!((h.limit, h.remaining, h.refused), (5, 0, true)),
        _ => panic!("expected refusal"),
    }
}
