//! Alert delivery decisions: which reports go out, and the content of the
//! Slack, Discord and generic webhook messages. Sending is left to the
//! transport, which serialises these values.
use crate::config::{AlertConfig, DiscordConfig, SlackConfig, WebhookConfig};
use crate::event::{AnomalyReport, ReportView};
use crate::text::{decimal, u64_text};
use vstd::prelude::*;
use vstd::string::StringExecFns;

verus! {

/// A report goes out when alerting is enabled and its severity reaches the minimum.
pub open spec fn dispatches(enabled: bool, min_severity: u8, r: ReportView) -> bool {
    enabled && r.severity >= min_severity
}

pub fn should_dispatch(config: &AlertConfig, report: &AnomalyReport) -> (r: bool)
    ensures
        r == dispatches(config.enabled, config.min_severity, report@),
{
    config.enabled && report.severity >= config.min_severity
}

/// One titled value of an alert message.
#[derive(Debug, Clone)]
pub struct AlertField {
    pub title: String,
    pub value: String,
    /// Shown beside the other short fields.
    pub short: bool,
}

/// The content of a Slack message for one report.
#[derive(Debug, Clone)]
pub struct SlackMessage {
    pub channel: Option<String>,
    pub username: String,
    pub icon_emoji: String,
    pub color: String,
    pub title: String,
    pub fields: Vec<AlertField>,
    pub text: String,
    pub ts: i64,
}

/// The content of a Discord embed for one report.
#[derive(Debug, Clone)]
pub struct DiscordMessage {
    pub username: String,
    pub title: String,
    pub description: String,
    pub color: u32,
    pub fields: Vec<AlertField>,
    /// ISO-8601 date-time of the report.
    pub timestamp: String,
    pub footer: String,
}

pub open spec fn slack_emoji(severity: u8) -> Seq<char> {
    if severity == 10 {
        ":rotating_light:"@
    } else if severity == 9 {
        ":warning:"@
    } else if severity == 8 {
        ":exclamation:"@
    } else {
        ":information_source:"@
    }
}

pub open spec fn slack_color(severity: u8) -> Seq<char> {
    if severity == 10 || severity == 9 {
        "danger"@
    } else if severity == 8 || severity == 7 {
        "warning"@
    } else {
        "good"@
    }
}

pub open spec fn discord_color(severity: u8) -> u32 {
    if severity == 10 {
        0xFF0000
    } else if severity == 9 {
        0xFF6600
    } else if severity == 8 {
        0xFFCC00
    } else if severity == 7 {
        0x00CCFF
    } else {
        0x00FF00
    }
}

/// The bot name: the configured one, else "Odin IDS".
pub open spec fn bot_name(username: Option<String>) -> Seq<char> {
    match username {
        Some(u) => u@,
        None => "Odin IDS"@,
    }
}

pub open spec fn field_is(f: AlertField, title: Seq<char>, value: Seq<char>, short: bool) -> bool {
    f.title@ == title && f.value@ == value && f.short == short
}

/// The UTC date-time text (RFC 3339) of a Unix timestamp; empty when the
/// timestamp is out of range.
pub uninterp spec fn rfc3339_utc(secs: int) -> Seq<char>;

/// Relies on `chrono::DateTime::from_timestamp` and `DateTime::to_rfc3339`:
/// the RFC 3339 text of the UTC date-time of `secs`; `None` from chrono
/// (out of range) becomes the empty text.
#[verifier::external_body]
fn utc_rfc3339(secs: i64) -> (r: String)
    ensures
        r@ == rfc3339_utc(secs as int),
{
    match chrono::DateTime::from_timestamp(secs, 0) {
        Some(dt) => dt.to_rfc3339(),
        None => String::new(),
    }
}

fn emoji_for(severity: u8) -> (r: &'static str)
    ensures
        r@ == slack_emoji(severity),
{
    if severity == 10 {
        ":rotating_light:"
    } else if severity == 9 {
        ":warning:"
    } else if severity == 8 {
        ":exclamation:"
    } else {
        ":information_source:"
    }
}

fn color_for(severity: u8) -> (r: &'static str)
    ensures
        r@ == slack_color(severity),
{
    if severity == 10 || severity == 9 {
        "danger"
    } else if severity == 8 || severity == 7 {
        "warning"
    } else {
        "good"
    }
}

fn name_or_default(username: &Option<String>) -> (r: String)
    ensures
        r@ == bot_name(*username),
{
    match username {
        Some(u) => u.clone(),
        None => String::from_str("Odin IDS"),
    }
}

fn field(title: &str, value: String, short: bool) -> (r: AlertField)
    ensures
        field_is(r, title@, value@, short),
{
    AlertField { title: String::from_str(title), value, short }
}

/// The Slack message for `report`: emoji and colour by severity band,
/// user, severity and both addresses as fields ("N/A" for an empty
/// trusted address), the description as text.
pub fn slack_message(config: &SlackConfig, report: &AnomalyReport) -> (r: SlackMessage)
    ensures
        r.channel == config.channel,
        r.username@ == bot_name(config.username),
        r.icon_emoji@ == ":shield:"@,
        r.color@ == slack_color(report.severity),
        r.title@ == slack_emoji(report.severity) + " "@ + report.rule_name@,
        r.fields@.len() == 4,
        field_is(r.fields@[0], "User"@, report.user@, true),
        field_is(r.fields@[1], "Severity"@, decimal(report.severity as nat), true),
        field_is(r.fields@[2], "Detected IP"@, report.detected_ip@, true),
        field_is(
            r.fields@[3],
            "Trusted IP"@,
            if report.trusted_ip@.len() == 0 {
                "N/A"@
            } else {
                report.trusted_ip@
            },
            true,
        ),
        r.text@ == report.description@,
        r.ts == report.timestamp,
{
    let mut title = String::from_str(emoji_for(report.severity));
    title.append(" ");
    title.append(report.rule_name.as_str());
    let trusted = if report.trusted_ip.as_str().unicode_len() == 0 {
        String::from_str("N/A")
    } else {
        report.trusted_ip.clone()
    };
    let mut fields: Vec<AlertField> = Vec::new();
    fields.push(field("User", report.user.clone(), true));
    fields.push(field("Severity", u64_text(report.severity as u64), true));
    fields.push(field("Detected IP", report.detected_ip.clone(), true));
    fields.push(field("Trusted IP", trusted, true));
    SlackMessage {
        channel: config.channel.clone(),
        username: name_or_default(&config.username),
        icon_emoji: String::from_str(":shield:"),
        color: String::from_str(color_for(report.severity)),
        title,
        fields,
        text: report.description.clone(),
        ts: report.timestamp,
    }
}

/// The Discord embed for `report`: colour by severity, user, "s/10" and
/// the detected address as fields, the report time in RFC 3339.
pub fn discord_message(config: &DiscordConfig, report: &AnomalyReport) -> (r: DiscordMessage)
    ensures
        r.username@ == bot_name(config.username),
        r.title@ == ":shield: "@ + report.rule_name@,
        r.description@ == report.description@,
        r.color == discord_color(report.severity),
        r.fields@.len() == 3,
        field_is(r.fields@[0], "User"@, report.user@, true),
        field_is(r.fields@[1], "Severity"@, decimal(report.severity as nat) + "/10"@, true),
        field_is(r.fields@[2], "Detected IP"@, report.detected_ip@, true),
        r.timestamp@ == rfc3339_utc(report.timestamp as int),
        r.footer@ == "Odin Intrusion Detection System"@,
{
    let mut title = String::from_str(":shield: ");
    title.append(report.rule_name.as_str());
    let color: u32 = if report.severity == 10 {
        0xFF0000
    } else if report.severity == 9 {
        0xFF6600
    } else if report.severity == 8 {
        0xFFCC00
    } else if report.severity == 7 {
        0x00CCFF
    } else {
        0x00FF00
    };
    let mut severity = u64_text(report.severity as u64);
    severity.append("/10");
    let mut fields: Vec<AlertField> = Vec::new();
    fields.push(field("User", report.user.clone(), true));
    fields.push(field("Severity", severity, true));
    fields.push(field("Detected IP", report.detected_ip.clone(), true));
    DiscordMessage {
        username: name_or_default(&config.username),
        title,
        description: report.description.clone(),
        color,
        fields,
        timestamp: utc_rfc3339(report.timestamp),
        footer: String::from_str("Odin Intrusion Detection System"),
    }
}

/// The uppercase form of `s`, as the standard library maps case.
pub uninterp spec fn upper_of(s: Seq<char>) -> Seq<char>;

/// Relies on `str::to_uppercase`: the result depends on the characters alone.
#[verifier::external_body]
fn uppercase(s: &str) -> (r: String)
    ensures
        r@ == upper_of(s@),
{
    s.to_uppercase()
}

/// A generic webhook is sent with PUT when its method reads "PUT" in any
/// case, else with POST.
pub open spec fn uses_put(method: Option<String>) -> bool {
    match method {
        Some(m) => upper_of(m@) == "PUT"@,
        None => false,
    }
}

impl WebhookConfig {
    pub fn uses_put(&self) -> (r: bool)
        ensures
            r == uses_put(self.method),
    {
        match &self.method {
            Some(m) => uppercase(m.as_str()) == String::from_str("PUT"),
            None => false,
        }
    }
}

} // verus!
