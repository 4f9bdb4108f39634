//! Stateful detection core of a host intrusion detection daemon: the event
//! model, the three behavioural rules over per-identity indexes, and the
//! decisions that surround them (log parsing, alert framing, retention).

pub mod alerting;
pub mod config;
pub mod detector;
pub mod event;
pub mod geo_velocity;
pub mod identity;
pub mod laws;
pub mod output;
pub mod parse;
pub mod persistence;
pub mod rate_limiter;
pub mod text;
pub mod window;

pub use config::{AlertConfig, Config};
pub use detector::Detector;
pub use event::{AnomalyReport, LogEvent};
pub use geo_velocity::{GeoLocation, GeoVelocityTracker};
pub use identity::IdentityContext;
pub use output::OutputFormat;
pub use rate_limiter::LoginRateLimiter;
