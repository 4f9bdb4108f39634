use odin::geo_velocity::{GeoLocation, GeoVelocityTracker};
use odin::identity::IdentityContext;
use odin::rate_limiter::LoginRateLimiter;
use odin::LogEvent;

fn create_event(user: &str, timestamp: i64, ip: &str) -> LogEvent {
    LogEvent {
        timestamp,
        user: user.to_string(),
        ip_address: ip.to_string(),
        event_type: "LOGIN".to_string(),
    }
}

fn loc(latitude: f64, longitude: f64) -> GeoLocation {
    GeoLocation {
        latitude_e6: (latitude * 1_000_000.0).round() as i32,
        longitude_e6: (longitude * 1_000_000.0).round() as i32,
    }
}

// Great-circle distances (haversine, R = 6371 km), in metres.
const NYC_LA_M: u64 = 3_935_746;
const NYC_TOKYO_M: u64 = 10_848_808;
const LONDON_SYDNEY_M: u64 = 16_993_933;

#[test]
fn test_ip_switch_anomaly() {
    let mut context = IdentityContext::new();

    let event1 = LogEvent {
        timestamp: 1700000000,
        user: "alice".to_string(),
        ip_address: "1.1.1.1".to_string(),
        event_type: "SSH_LOGIN".to_string(),
    };
    assert!(context.check_for_ip_switch(&event1).is_none());

    let event2 = LogEvent {
        timestamp: 1700000005,
        user: "alice".to_string(),
        ip_address: "2.2.2.2".to_string(),
        event_type: "SSH_LOGIN".to_string(),
    };
    let report = context.check_for_ip_switch(&event2);
    assert!(report.is_some());
    assert_eq!(report.unwrap().trusted_ip, "1.1.1.1");
}

#[test]
fn ip_switch_scenario_single_report() {
    let mut context = IdentityContext::new();
    assert!(context.check_for_ip_switch(&create_event("alice", 1700000000, "1.1.1.1")).is_none());
    let report = context
        .check_for_ip_switch(&create_event("alice", 1700000005, "2.2.2.2"))
        .expect("switch must be reported");
    assert_eq!(report.rule_name, "Sudden IP Switch");
    assert_eq!(report.severity, 8);
    assert_eq!(report.trusted_ip, "1.1.1.1");
    assert_eq!(report.detected_ip, "2.2.2.2");
    assert_eq!(report.timestamp, 1700000005);
    assert_eq!(report.user, "alice");
    assert_eq!(
        report.description,
        "User 'alice' switched from trusted IP 1.1.1.1 to new IP 2.2.2.2."
    );
}

#[test]
fn ip_switch_same_address_is_silent() {
    let mut context = IdentityContext::new();
    for i in 0..10 {
        let ev = create_event("bob", 1700000000 + i, "2001:db8::1");
        assert!(context.check_for_ip_switch(&ev).is_none());
    }
    assert_eq!(context.last_ip("bob"), Some(("2001:db8::1".to_string(), 1700000009)));
}

#[test]
fn ip_switch_settles_then_switches_again() {
    let mut context = IdentityContext::new();
    assert!(context.check_for_ip_switch(&create_event("c", 1, "1.1.1.1")).is_none());
    assert!(context.check_for_ip_switch(&create_event("c", 2, "2.2.2.2")).is_some());
    assert!(context.check_for_ip_switch(&create_event("c", 3, "2.2.2.2")).is_none());
    assert!(context.check_for_ip_switch(&create_event("c", 4, "2.2.2.2")).is_none());
    let third = context.check_for_ip_switch(&create_event("c", 5, "3.3.3.3")).unwrap();
    assert_eq!(third.trusted_ip, "2.2.2.2");
    assert_eq!(third.detected_ip, "3.3.3.3");
}

#[test]
fn ip_switch_users_are_independent() {
    let mut context = IdentityContext::new();
    assert!(context.check_for_ip_switch(&create_event("u1", 1, "1.1.1.1")).is_none());
    assert!(context.check_for_ip_switch(&create_event("u2", 2, "2.2.2.2")).is_none());
    assert!(context.check_for_ip_switch(&create_event("U1", 3, "3.3.3.3")).is_none());
}

#[test]
fn ip_switch_recall_fills_miss_only() {
    let mut restarted = IdentityContext::new();
    restarted.recall(&"alice".to_string(), &"1.1.1.1".to_string(), 1700000000);
    restarted.recall(&"alice".to_string(), &"9.9.9.9".to_string(), 1);
    assert_eq!(restarted.last_ip("alice"), Some(("1.1.1.1".to_string(), 1700000000)));
    let report = restarted.check_for_ip_switch(&create_event("alice", 1700000005, "2.2.2.2"));
    assert_eq!(report.unwrap().trusted_ip, "1.1.1.1");
}

#[test]
fn test_normal_login_rate() {
    let mut limiter = LoginRateLimiter::with_config(300, 5, 10);

    for i in 0..3 {
        let event = create_event("user1", 1700000000 + i * 60, "1.1.1.1");
        let reports = limiter.check_rate_limit(&event);
        assert!(reports.is_empty(), "Should not trigger for normal rate");
    }
}

#[test]
fn test_user_rate_exceeded() {
    let mut limiter = LoginRateLimiter::with_config(300, 3, 100);

    for i in 0..5 {
        let event = create_event("attacker", 1700000000 + i, "1.1.1.1");
        let reports = limiter.check_rate_limit(&event);

        if i >= 3 {
            assert!(!reports.is_empty(), "Should trigger after threshold");
            assert!(reports[0].rule_name.contains("User Rate"));
        }
    }
}

#[test]
fn test_ip_rate_exceeded() {
    let mut limiter = LoginRateLimiter::with_config(300, 100, 3);

    for i in 0..5 {
        let event = create_event(&format!("user{}", i), 1700000000 + i as i64, "10.0.0.1");
        let reports = limiter.check_rate_limit(&event);

        if i >= 3 {
            assert!(!reports.is_empty(), "Should trigger after IP threshold");
            assert!(reports.iter().any(|r| r.rule_name.contains("IP Rate")));
        }
    }
}

#[test]
fn test_window_expiry() {
    let mut limiter = LoginRateLimiter::with_config(60, 3, 100);

    for i in 0..3 {
        let event = create_event("user1", 1700000000 + i, "1.1.1.1");
        limiter.check_rate_limit(&event);
    }

    assert_eq!(limiter.get_user_attempt_count("user1"), 3);

    let event = create_event("user1", 1700000000 + 120, "1.1.1.1");
    limiter.check_rate_limit(&event);

    assert_eq!(limiter.get_user_attempt_count("user1"), 1);
}

#[test]
fn test_both_limits_exceeded() {
    let mut limiter = LoginRateLimiter::with_config(300, 2, 2);

    for i in 0..2 {
        let event = create_event("target", 1700000000 + i, "5.5.5.5");
        limiter.check_rate_limit(&event);
    }

    let event = create_event("target", 1700000002, "5.5.5.5");
    let reports = limiter.check_rate_limit(&event);

    assert_eq!(reports.len(), 2, "Should trigger both user and IP limits");
}

#[test]
fn user_rate_scenario_fourth_and_fifth_report() {
    let t = 1700000000;
    let mut limiter = LoginRateLimiter::with_config(300, 3, 100);
    for i in 0..5 {
        let reports = limiter.check_rate_limit(&create_event("attacker", t + i, "1.1.1.1"));
        if i < 3 {
            assert!(reports.is_empty());
        } else {
            assert_eq!(reports.len(), 1);
            assert_eq!(reports[0].rule_name, "User Rate Limit Exceeded");
            assert_eq!(reports[0].severity, 7);
            assert_eq!(reports[0].trusted_ip, "");
            assert_eq!(reports[0].timestamp, t + i);
        }
    }
    assert_eq!(limiter.get_ip_attempt_count("1.1.1.1"), 5);
}

#[test]
fn both_limits_scenario_user_first() {
    let t = 1700000000;
    let mut limiter = LoginRateLimiter::with_config(300, 2, 2);
    assert!(limiter.check_rate_limit(&create_event("t", t, "5.5.5.5")).is_empty());
    assert!(limiter.check_rate_limit(&create_event("t", t + 1, "5.5.5.5")).is_empty());
    let reports = limiter.check_rate_limit(&create_event("t", t + 2, "5.5.5.5"));
    assert_eq!(reports.len(), 2);
    assert_eq!(reports[0].rule_name, "User Rate Limit Exceeded");
    assert_eq!(reports[1].rule_name, "IP Rate Limit Exceeded");
    assert_eq!(
        reports[0].description,
        "User 't' has 3 login attempts in the last 300 seconds (threshold: 2). \
         Possible credential stuffing or brute force attack."
    );
    assert_eq!(
        reports[1].description,
        "IP 5.5.5.5 has 3 login attempts in the last 300 seconds (threshold: 2). \
         Possible distributed attack or compromised host."
    );
}

#[test]
fn window_expiry_scenario() {
    let t = 1700000000;
    let mut limiter = LoginRateLimiter::with_config(60, 3, 100);
    for i in 0..3 {
        assert!(limiter.check_rate_limit(&create_event("w", t + i, "1.1.1.1")).is_empty());
    }
    let reports = limiter.check_rate_limit(&create_event("w", t + 120, "1.1.1.1"));
    assert!(reports.is_empty());
    assert_eq!(limiter.get_user_attempt_count("w"), 1);
    assert_eq!(limiter.get_ip_attempt_count("1.1.1.1"), 1);
}

#[test]
fn rate_severity_bands() {
    // threshold 1: counts 2, 3, 4, 6 give ratios 2, 3, 4, 6.
    let mut limiter = LoginRateLimiter::with_config(1000, 1, 1000);
    let mut severities = Vec::new();
    for i in 0..6 {
        let reports = limiter.check_rate_limit(&create_event("s", 10 + i, "1.1.1.1"));
        severities.push(reports.first().map(|r| r.severity));
    }
    assert_eq!(severities, vec![None, Some(7), Some(8), Some(9), Some(9), Some(10)]);
}

#[test]
fn rate_zero_threshold_reports_first_attempt() {
    let mut limiter = LoginRateLimiter::with_config(300, 0, 0);
    let reports = limiter.check_rate_limit(&create_event("z", 1, "1.1.1.1"));
    assert_eq!(reports.len(), 2);
    assert_eq!(reports[0].severity, 10);
}

#[test]
fn rate_counted_uses_store_counts() {
    let mut limiter = LoginRateLimiter::with_config(300, 3, 100);
    let reports = limiter.check_rate_limit_counted(&create_event("a", 5, "1.1.1.1"), 4, 1);
    assert_eq!(reports.len(), 1);
    assert_eq!(reports[0].rule_name, "User Rate Limit Exceeded");
    assert_eq!(limiter.get_user_attempt_count("a"), 1);
}

#[test]
fn rate_prune_and_clear() {
    let mut limiter = LoginRateLimiter::new();
    limiter.check_rate_limit(&create_event("a", 100, "1.1.1.1"));
    limiter.check_rate_limit(&create_event("b", 500, "2.2.2.2"));
    limiter.prune_stale(700);
    assert_eq!(limiter.get_user_attempt_count("a"), 0);
    assert_eq!(limiter.get_user_attempt_count("b"), 1);
    assert_eq!(limiter.get_ip_attempt_count("1.1.1.1"), 0);
    assert_eq!(limiter.get_ip_attempt_count("2.2.2.2"), 1);
    limiter.clear_all();
    assert_eq!(limiter.get_user_attempt_count("b"), 0);
    assert_eq!(limiter.window_seconds(), 300);
}

#[test]
fn test_normal_travel() {
    let mut tracker = GeoVelocityTracker::new();

    let event1 = create_event("bob", 1700000000, "1.1.1.1");
    let nyc = loc(40.7128, -74.0060);
    assert!(tracker.check_impossible_travel(&event1, nyc, 0).is_none());

    let event2 = create_event("bob", 1700000000 + 6 * 3600, "2.2.2.2");
    let la = loc(34.0522, -118.2437);
    assert!(tracker.check_impossible_travel(&event2, la, NYC_LA_M).is_none());
}

#[test]
fn test_impossible_travel() {
    let mut tracker = GeoVelocityTracker::new();

    let event1 = create_event("alice", 1700000000, "1.1.1.1");
    let nyc = loc(40.7128, -74.0060);
    assert!(tracker.check_impossible_travel(&event1, nyc, 0).is_none());

    let event2 = create_event("alice", 1700000000 + 3600, "3.3.3.3");
    let tokyo = loc(35.6762, 139.6503);

    let report = tracker.check_impossible_travel(&event2, tokyo, NYC_TOKYO_M);
    assert!(report.is_some(), "Should detect impossible travel");
    let report = report.unwrap();
    assert!(report.severity >= 9, "High severity expected for extreme velocity");
    assert!(report.description.contains("alice"));
}

#[test]
fn impossible_travel_scenario() {
    let mut tracker = GeoVelocityTracker::with_max_velocity(900);
    let nyc = loc(40.7128, -74.0060);
    let tokyo = loc(35.6762, 139.6503);
    assert!(tracker
        .check_impossible_travel(&create_event("alice", 1700000000, "1.1.1.1"), nyc, 0)
        .is_none());
    let report = tracker
        .check_impossible_travel(&create_event("alice", 1700003600, "3.3.3.3"), tokyo, NYC_TOKYO_M)
        .unwrap();
    assert_eq!(report.rule_name, "Impossible Travel Velocity");
    assert_eq!(report.severity, 10);
    assert_eq!(report.detected_ip, "3.3.3.3");
    assert_eq!(report.trusted_ip, "");
    assert_eq!(
        report.description,
        "User 'alice' traveled 10848 km in 3600 seconds (10848 km/h). Max plausible speed: 900 km/h."
    );
    assert_eq!(tracker.last_location("alice"), Some((1700003600, tokyo)));
}

#[test]
fn test_simultaneous_login() {
    let mut tracker = GeoVelocityTracker::new();

    let event1 = create_event("charlie", 1700000000, "1.1.1.1");
    let london = loc(51.5074, -0.1278);
    tracker.check_impossible_travel(&event1, london, 0);

    let event2 = create_event("charlie", 1700000001, "4.4.4.4");
    let sydney = loc(-33.8688, 151.2093);

    let report = tracker.check_impossible_travel(&event2, sydney, LONDON_SYDNEY_M);
    assert!(report.is_some());
    let report = report.unwrap();
    assert_eq!(report.severity, 10);
    assert!(report.rule_name.contains("Simultaneous"));
}

#[test]
fn simultaneous_scenario_and_clock_skew() {
    let mut tracker = GeoVelocityTracker::new();
    let london = loc(51.5074, -0.1278);
    let sydney = loc(-33.8688, 151.2093);
    tracker.check_impossible_travel(&create_event("c", 1700000000, "1.1.1.1"), london, 0);
    let report = tracker
        .check_impossible_travel(&create_event("c", 1700000001, "4.4.4.4"), sydney, LONDON_SYDNEY_M)
        .unwrap();
    assert_eq!(report.rule_name, "Simultaneous Multi-Location Login");
    assert_eq!(report.severity, 10);
    // An event from before the last one counts as simultaneous too.
    let skewed = tracker
        .check_impossible_travel(&create_event("c", 1699990000, "1.1.1.1"), london, LONDON_SYDNEY_M)
        .unwrap();
    assert_eq!(skewed.rule_name, "Simultaneous Multi-Location Login");
}

#[test]
fn geo_simultaneous_boundary() {
    let mut tracker = GeoVelocityTracker::new();
    let here = loc(10.0, 10.0);
    tracker.check_impossible_travel(&create_event("d", 100, "1.1.1.1"), here, 0);
    // 3 s is under 0.001 h; 4 s is not, and no distance means no alert.
    assert!(tracker.check_impossible_travel(&create_event("d", 103, "1.1.1.1"), here, 0).is_some());
    assert!(tracker.check_impossible_travel(&create_event("d", 107, "1.1.1.1"), here, 0).is_none());
}

#[test]
fn geo_velocity_severity_bands() {
    // One hour apart, limit 900 km/h: 1000 km -> 7, 2000 -> 8, 5000 -> 9, 9001 -> 10.
    for (km, sev) in [(1000u64, 7u8), (2000, 8), (5000, 9), (9001, 10)] {
        let mut tracker = GeoVelocityTracker::new();
        let a = loc(0.0, 0.0);
        tracker.check_impossible_travel(&create_event("e", 0, "1.1.1.1"), a, 0);
        let r = tracker
            .check_impossible_travel(&create_event("e", 3600, "1.1.1.1"), a, km * 1000)
            .unwrap();
        assert_eq!(r.severity, sev);
    }
    let mut tracker = GeoVelocityTracker::new();
    let a = loc(0.0, 0.0);
    tracker.check_impossible_travel(&create_event("e", 0, "1.1.1.1"), a, 0);
    assert!(tracker.check_impossible_travel(&create_event("e", 3600, "1.1.1.1"), a, 900_000).is_none());
}

#[test]
fn geo_recall_and_clear() {
    let mut tracker = GeoVelocityTracker::new();
    let a = loc(1.0, 2.0);
    let b = loc(3.0, 4.0);
    tracker.recall(&"f".to_string(), 50, a);
    tracker.recall(&"f".to_string(), 60, b);
    assert_eq!(tracker.last_location("f"), Some((50, a)));
    tracker.clear_user("f");
    assert_eq!(tracker.last_location("f"), None);
    tracker.recall(&"g".to_string(), 1, a);
    tracker.clear_all();
    assert_eq!(tracker.last_location("g"), None);
}

#[test]
fn geo_location_range() {
    assert!(GeoLocation::from_micro_degrees(90_000_000, -180_000_000).is_some());
    assert!(GeoLocation::from_micro_degrees(90_000_001, 0).is_none());
    assert!(GeoLocation::from_micro_degrees(0, 180_000_001).is_none());
}
