//! Configuration surface of the daemon, as consumed by the core.
//! Paths are held as text; the velocity limit in whole km/h.
use crate::detector::DetectionSwitches;
use crate::geo_velocity::{GeoVelocityTracker, GeoView};
use crate::rate_limiter::{LoginRateLimiter, RateView};
use vstd::prelude::*;
use vstd::string::StringExecFns;

verus! {

/// Input source configuration.
#[derive(Debug, Clone)]
pub struct InputConfig {
    /// "file" or "syslog".
    pub source_type: String,
    pub file_path: Option<String>,
    pub syslog_address: Option<String>,
}

/// Rate limiting configuration.
#[derive(Debug, Clone, Copy, PartialEq, Eq, Structural)]
pub struct RateLimitConfig {
    pub window_seconds: i64,
    pub max_user_attempts: usize,
    pub max_ip_attempts: usize,
}

/// Geo velocity configuration.
#[derive(Debug, Clone, Copy, PartialEq, Eq, Structural)]
pub struct GeoVelocityConfig {
    /// Maximum plausible travel speed in km/h.
    pub max_velocity_kmh: u32,
}

/// Geolocation provider configuration.
#[derive(Debug, Clone)]
pub struct GeoLocationConfig {
    pub enabled: bool,
    pub database_path: Option<String>,
}

/// Detection rules configuration.
#[derive(Debug, Clone)]
pub struct DetectionConfig {
    pub enable_ip_switch: bool,
    pub enable_geo_velocity: bool,
    pub enable_rate_limiting: bool,
    pub rate_limit: RateLimitConfig,
    pub geo_velocity: GeoVelocityConfig,
    pub geo_location: GeoLocationConfig,
}

/// Output configuration.
#[derive(Debug, Clone)]
pub struct OutputConfig {
    /// "json", "jsonl" or "console".
    pub format: String,
    pub file_path: Option<String>,
}

/// Durable state configuration.
#[derive(Debug, Clone)]
pub struct PersistenceConfig {
    pub enabled: bool,
    pub database_path: Option<String>,
}

/// Slack webhook configuration.
#[derive(Debug, Clone)]
pub struct SlackConfig {
    pub webhook_url: String,
    pub channel: Option<String>,
    pub username: Option<String>,
}

/// Discord webhook configuration.
#[derive(Debug, Clone)]
pub struct DiscordConfig {
    pub webhook_url: String,
    pub username: Option<String>,
}

/// Generic webhook configuration.
#[derive(Debug, Clone)]
pub struct WebhookConfig {
    pub name: String,
    pub url: String,
    /// "POST" or "PUT"; POST when absent.
    pub method: Option<String>,
    /// Extra headers, as (name, value) pairs.
    pub headers: Option<Vec<(String, String)>>,
}

/// Alerting configuration.
#[derive(Debug, Clone)]
pub struct AlertConfig {
    pub enabled: bool,
    /// Minimum severity (1-10) of a report that is sent out.
    pub min_severity: u8,
    pub slack: Option<SlackConfig>,
    pub discord: Option<DiscordConfig>,
    pub webhooks: Vec<WebhookConfig>,
}

/// The whole configuration.
#[derive(Debug, Clone)]
pub struct Config {
    pub input: InputConfig,
    pub detection: DetectionConfig,
    pub output: OutputConfig,
    pub persistence: PersistenceConfig,
    pub alerting: AlertConfig,
}

impl Default for GeoLocationConfig {
    fn default() -> (r: Self)
        ensures
            r.enabled,
            r.database_path matches Some(p) && p@ == "GeoLite2-City.mmdb"@,
    {
        GeoLocationConfig {
            enabled: true,
            database_path: Some(String::from_str("GeoLite2-City.mmdb")),
        }
    }
}

impl Default for PersistenceConfig {
    fn default() -> (r: Self)
        ensures
            r.enabled,
            r.database_path matches Some(p) && p@ == "odin_state.db"@,
    {
        PersistenceConfig { enabled: true, database_path: Some(String::from_str("odin_state.db")) }
    }
}

impl Default for AlertConfig {
    fn default() -> (r: Self)
        ensures
            !r.enabled,
            r.min_severity == 7,
            r.slack is None,
            r.discord is None,
            r.webhooks@.len() == 0,
    {
        AlertConfig {
            enabled: false,
            min_severity: 7,
            slack: None,
            discord: None,
            webhooks: Vec::new(),
        }
    }
}

impl Default for Config {
    fn default() -> (r: Self)
        ensures
            r.input.source_type@ == "file"@,
            r.input.file_path matches Some(p) && p@ == "/var/log/auth.log"@,
            r.input.syslog_address is None,
            r.detection.enable_ip_switch,
            r.detection.enable_geo_velocity,
            r.detection.enable_rate_limiting,
            r.detection.rate_limit == (RateLimitConfig {
                window_seconds: 300,
                max_user_attempts: 10,
                max_ip_attempts: 20,
            }),
            r.detection.geo_velocity.max_velocity_kmh == 900,
            r.detection.geo_location.enabled,
            r.detection.geo_location.database_path matches Some(p) && p@ == "GeoLite2-City.mmdb"@,
            r.output.format@ == "json"@,
            r.output.file_path matches Some(p) && p@ == "anomalies.jsonl"@,
            r.persistence.enabled,
            r.persistence.database_path matches Some(p) && p@ == "odin_state.db"@,
            !r.alerting.enabled,
            r.alerting.min_severity == 7,
            r.alerting.slack is None,
            r.alerting.discord is None,
            r.alerting.webhooks@.len() == 0,
    {
        Config {
            input: InputConfig {
                source_type: String::from_str("file"),
                file_path: Some(String::from_str("/var/log/auth.log")),
                syslog_address: None,
            },
            detection: DetectionConfig {
                enable_ip_switch: true,
                enable_geo_velocity: true,
                enable_rate_limiting: true,
                rate_limit: RateLimitConfig {
                    window_seconds: 300,
                    max_user_attempts: 10,
                    max_ip_attempts: 20,
                },
                geo_velocity: GeoVelocityConfig { max_velocity_kmh: 900 },
                geo_location: GeoLocationConfig::default(),
            },
            output: OutputConfig {
                format: String::from_str("json"),
                file_path: Some(String::from_str("anomalies.jsonl")),
            },
            persistence: PersistenceConfig::default(),
            alerting: AlertConfig::default(),
        }
    }
}

impl DetectionConfig {
    /// Which rules this configuration enables.
    pub fn switches(&self) -> (r: DetectionSwitches)
        ensures
            r.enable_ip_switch == self.enable_ip_switch,
            r.enable_geo_velocity == self.enable_geo_velocity,
            r.enable_rate_limiting == self.enable_rate_limiting,
    {
        DetectionSwitches {
            enable_ip_switch: self.enable_ip_switch,
            enable_geo_velocity: self.enable_geo_velocity,
            enable_rate_limiting: self.enable_rate_limiting,
        }
    }

    /// An empty rate limiter with this configuration's window and thresholds.
    pub fn rate_limiter(&self) -> (r: LoginRateLimiter)
        ensures
            r.wf(),
            r@ == (RateView {
                users: Map::empty(),
                ips: Map::empty(),
                window_seconds: self.rate_limit.window_seconds,
                max_user_attempts: self.rate_limit.max_user_attempts,
                max_ip_attempts: self.rate_limit.max_ip_attempts,
            }),
    {
        LoginRateLimiter::with_config(
            self.rate_limit.window_seconds,
            self.rate_limit.max_user_attempts,
            self.rate_limit.max_ip_attempts,
        )
    }

    /// An empty geo-velocity tracker with this configuration's speed limit.
    pub fn geo_tracker(&self) -> (r: GeoVelocityTracker)
        ensures
            r@ == (GeoView {
                locations: Map::empty(),
                max_velocity_kmh: self.geo_velocity.max_velocity_kmh,
            }),
    {
        GeoVelocityTracker::with_max_velocity(self.geo_velocity.max_velocity_kmh)
    }
}

} // verus!
