use odin::alerting::{discord_message, should_dispatch, slack_message};
use odin::config::{
    AlertConfig, Config, DiscordConfig, GeoLocationConfig, PersistenceConfig, SlackConfig,
    WebhookConfig,
};
use odin::detector::{DetectionSwitches, Detector, GeoFix, StoredCounts};
use odin::geo_velocity::{GeoLocation, GeoVelocityTracker};
use odin::output::{console_line, OutputFormat};
use odin::parse::{parse_log_line, parse_log_line_with, parse_syslog_message, ParseError};
use odin::persistence::{attempt_window_start, report_retention_cutoff};
use odin::rate_limiter::LoginRateLimiter;
use odin::text::{chars_of, i64_text, index_of, u64_text};
use odin::{AnomalyReport, LogEvent};

fn report(severity: u8, trusted: &str) -> AnomalyReport {
    AnomalyReport {
        severity,
        rule_name: "Test Rule".to_string(),
        user: "testuser".to_string(),
        detected_ip: "1.2.3.4".to_string(),
        trusted_ip: trusted.to_string(),
        timestamp: 1700000000,
        description: "Test anomaly".to_string(),
    }
}

fn event(user: &str, timestamp: i64, ip: &str) -> LogEvent {
    LogEvent {
        timestamp,
        user: user.to_string(),
        ip_address: ip.to_string(),
        event_type: "LOGIN".to_string(),
    }
}

#[test]
fn test_parse_log_line() {
    let line = "Jan 1 12:00:00 hostname sshd[1234]: Accepted publickey for alice from 192.168.1.100 port 12345";
    let event = parse_log_line(line, 1700000000).unwrap();
    assert_eq!(event.user, "alice");
    assert_eq!(event.ip_address.to_string(), "192.168.1.100");
    assert_eq!(event.event_type, "SSH_LOGIN");
}

#[test]
fn test_parse_syslog_message() {
    let message = "<34>Jan 1 12:00:00 hostname sshd[1234]: Accepted publickey for alice from 192.168.1.100";
    let event = parse_syslog_message(message, 1700000000).unwrap();
    assert_eq!(event.user, "alice");
    assert_eq!(event.ip_address.to_string(), "192.168.1.100");
}

#[test]
fn parse_failed_and_unknown_lines() {
    let failed = parse_log_line("sshd: Failed password for root from 10.0.0.7 port 22", 5).unwrap();
    assert_eq!(failed.event_type, "SSH_FAILED");
    assert_eq!(failed.user, "root");
    assert_eq!(failed.ip_address, "10.0.0.7");
    assert_eq!(failed.timestamp, 5);
    let other = parse_log_line("kernel: nothing here", 6).unwrap();
    assert_eq!(other.event_type, "UNKNOWN");
    assert_eq!(other.user, "unknown");
    assert_eq!(other.ip_address, "0.0.0.0");
    let trailing = parse_log_line("Invalid user for bob", 7).unwrap();
    assert_eq!(trailing.user, "unknown");
    assert_eq!(trailing.event_type, "SSH_FAILED");
}

#[test]
fn parse_rejects_out_of_range_address() {
    let r = parse_log_line("Accepted password for eve from 300.1.1.1 port 22", 1);
    assert_eq!(r.unwrap_err(), ParseError::InvalidAddress("300.1.1.1".to_string()));
    let r = parse_log_line("Accepted password for eve from 01.1.1.1 port 22", 1);
    assert!(r.is_err());
}

#[test]
fn parse_with_given_candidate() {
    let line = "Accepted password for dave from somewhere";
    let ev = parse_log_line_with(line, Some("8.8.4.4".to_string()), 9).unwrap();
    assert_eq!(ev.ip_address, "8.8.4.4");
    assert_eq!(ev.user, "dave");
    let ev = parse_log_line_with(line, None, 9).unwrap();
    assert_eq!(ev.ip_address, "0.0.0.0");
    assert!(parse_log_line_with(line, Some("1.2.3".to_string()), 9).is_err());
    assert!(parse_log_line_with(line, Some("256.0.0.1".to_string()), 9).is_err());
    assert!(parse_log_line_with(line, Some("255.0.0.1".to_string()), 9).is_ok());
}

#[test]
fn text_primitives() {
    assert_eq!(u64_text(0), "0");
    assert_eq!(u64_text(18446744073709551615), "18446744073709551615");
    assert_eq!(i64_text(-9223372036854775808), "-9223372036854775808");
    assert_eq!(i64_text(300), "300");
    let h = chars_of("abcabd");
    assert_eq!(index_of(&h, &chars_of("abd")), Some(3));
    assert_eq!(index_of(&h, &chars_of("x")), None);
    assert_eq!(index_of(&h, &chars_of("")), Some(0));
}

#[test]
fn output_format_names() {
    assert_eq!(OutputFormat::from_str("JSON"), OutputFormat::Json);
    assert_eq!(OutputFormat::from_str("jsonl"), OutputFormat::Jsonl);
    assert_eq!(OutputFormat::from_str("Console"), OutputFormat::Console);
    assert_eq!(OutputFormat::from_str("xml"), OutputFormat::Jsonl);
    assert_eq!(OutputFormat::from_lowercase("json"), OutputFormat::Json);
    assert_eq!(OutputFormat::from_lowercase("JSON"), OutputFormat::Jsonl);
}

#[test]
fn console_form() {
    assert_eq!(
        console_line(&report(8, "5.6.7.8")),
        "[Test Rule] Test anomaly - User: testuser, IP: 5.6.7.8 -> 1.2.3.4, Severity: 8\n"
    );
}

#[test]
fn test_severity_filtering() {
    let config = AlertConfig {
        enabled: true,
        min_severity: 8,
        slack: None,
        discord: None,
        webhooks: vec![],
    };

    let report = AnomalyReport {
        severity: 7,
        rule_name: "Low Priority".to_string(),
        user: "user".to_string(),
        detected_ip: "1.1.1.1".to_string(),
        trusted_ip: "".to_string(),
        timestamp: 0,
        description: "test".to_string(),
    };

    assert!(report.severity < config.min_severity);
    assert!(!should_dispatch(&config, &report));
}

#[test]
fn dispatch_decision() {
    let mut config = AlertConfig::default();
    assert!(!should_dispatch(&config, &report(10, "")));
    config.enabled = true;
    assert!(should_dispatch(&config, &report(7, "")));
    assert!(!should_dispatch(&config, &report(6, "")));
}

#[test]
fn slack_payload_content() {
    let config = SlackConfig {
        webhook_url: "https://hooks.example/x".to_string(),
        channel: Some("#sec".to_string()),
        username: None,
    };
    let m = slack_message(&config, &report(9, ""));
    assert_eq!(m.channel, Some("#sec".to_string()));
    assert_eq!(m.username, "Odin IDS");
    assert_eq!(m.icon_emoji, ":shield:");
    assert_eq!(m.color, "danger");
    assert_eq!(m.title, ":warning: Test Rule");
    assert_eq!(m.fields.len(), 4);
    assert_eq!(m.fields[1].value, "9");
    assert_eq!(m.fields[3].title, "Trusted IP");
    assert_eq!(m.fields[3].value, "N/A");
    assert_eq!(m.text, "Test anomaly");
    assert_eq!(m.ts, 1700000000);
    let m = slack_message(&config, &report(7, "5.6.7.8"));
    assert_eq!(m.color, "warning");
    assert_eq!(m.title, ":information_source: Test Rule");
    assert_eq!(m.fields[3].value, "5.6.7.8");
    assert_eq!(slack_message(&config, &report(3, "")).color, "good");
}

#[test]
fn discord_payload_content() {
    let config = DiscordConfig {
        webhook_url: "https://discord.example/x".to_string(),
        username: Some("watch".to_string()),
    };
    let m = discord_message(&config, &report(10, ""));
    assert_eq!(m.username, "watch");
    assert_eq!(m.title, ":shield: Test Rule");
    assert_eq!(m.color, 0xFF0000);
    assert_eq!(m.fields[1].value, "10/10");
    assert_eq!(m.timestamp, "2023-11-14T22:13:20+00:00");
    assert_eq!(m.footer, "Odin Intrusion Detection System");
    assert_eq!(discord_message(&config, &report(9, "")).color, 0xFF6600);
    assert_eq!(discord_message(&config, &report(8, "")).color, 0xFFCC00);
    assert_eq!(discord_message(&config, &report(7, "")).color, 0x00CCFF);
    assert_eq!(discord_message(&config, &report(2, "")).color, 0x00FF00);
}

#[test]
fn webhook_method() {
    let mut hook = WebhookConfig {
        name: "h".to_string(),
        url: "https://example/h".to_string(),
        method: Some("put".to_string()),
        headers: None,
    };
    assert!(hook.uses_put());
    hook.method = Some("POST".to_string());
    assert!(!hook.uses_put());
    hook.method = None;
    assert!(!hook.uses_put());
}

#[test]
fn config_defaults() {
    let c = Config::default();
    assert_eq!(c.input.source_type, "file");
    assert_eq!(c.detection.rate_limit.window_seconds, 300);
    assert_eq!(c.detection.rate_limit.max_user_attempts, 10);
    assert_eq!(c.detection.rate_limit.max_ip_attempts, 20);
    assert_eq!(c.detection.geo_velocity.max_velocity_kmh, 900);
    assert_eq!(c.output.format, "json");
    assert!(!c.alerting.enabled);
    assert_eq!(c.alerting.min_severity, 7);
    assert_eq!(GeoLocationConfig::default().database_path, Some("GeoLite2-City.mmdb".to_string()));
    assert_eq!(PersistenceConfig::default().database_path, Some("odin_state.db".to_string()));
    let s = c.detection.switches();
    assert!(s.enable_ip_switch && s.enable_geo_velocity && s.enable_rate_limiting);
}

#[test]
fn store_windows() {
    assert_eq!(attempt_window_start(1000, 300), 701);
    assert_eq!(report_retention_cutoff(3000000), 3000000 - 2592000);
}

fn detector(switches: DetectionSwitches) -> Detector {
    Detector::new(switches, GeoVelocityTracker::new(), LoginRateLimiter::with_config(300, 1, 1))
}

fn all_on() -> DetectionSwitches {
    DetectionSwitches { enable_ip_switch: true, enable_geo_velocity: true, enable_rate_limiting: true }
}

#[test]
fn detector_rule_order() {
    let mut d = detector(all_on());
    let here = GeoLocation { latitude_e6: 0, longitude_e6: 0 };
    let first = d.process_event(&event("a", 100, "1.1.1.1"), Some(GeoFix { location: here, distance_m: 0 }), None);
    assert!(first.is_empty());
    let r = d.process_event(
        &event("a", 101, "2.2.2.2"),
        Some(GeoFix { location: here, distance_m: 5_000_000 }),
        None,
    );
    let names: Vec<&str> = r.iter().map(|x| x.rule_name.as_str()).collect();
    assert_eq!(
        names,
        vec!["Sudden IP Switch", "Simultaneous Multi-Location Login", "User Rate Limit Exceeded"]
    );
    for rep in &r {
        assert!(rep.severity >= 1 && rep.severity <= 10);
        assert_eq!(rep.timestamp, 101);
    }
}

#[test]
fn detector_switches_and_unlocated() {
    let mut d = detector(DetectionSwitches {
        enable_ip_switch: false,
        enable_geo_velocity: true,
        enable_rate_limiting: false,
    });
    assert!(d.process_event(&event("a", 1, "1.1.1.1"), None, None).is_empty());
    assert!(d.process_event(&event("a", 2, "2.2.2.2"), None, None).is_empty());
    assert_eq!(d.geo_velocity.last_location("a"), None);
}

#[test]
fn detector_restart_parity() {
    let here = GeoLocation { latitude_e6: 0, longitude_e6: 0 };
    let mut running = detector(all_on());
    running.process_event(&event("p", 10, "1.1.1.1"), Some(GeoFix { location: here, distance_m: 0 }), Some(StoredCounts { user_count: 1, ip_count: 1 }));
    let mut restarted = detector(all_on());
    restarted.identity.recall(&"p".to_string(), &"1.1.1.1".to_string(), 10);
    restarted.geo_velocity.recall(&"p".to_string(), 10, here);
    let next = event("p", 20, "2.2.2.2");
    let fix = Some(GeoFix { location: here, distance_m: 1_000_000 });
    let counts = Some(StoredCounts { user_count: 2, ip_count: 1 });
    let a = running.process_event(&next, fix, counts);
    let b = restarted.process_event(&next, fix, counts);
    assert_eq!(a, b);
    assert_eq!(a.len(), 3);
}
