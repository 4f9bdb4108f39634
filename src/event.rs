use vstd::prelude::*;

verus! {

/// One authentication event, as handed over by an input adapter.
///
/// `ip_address` holds the canonical text form of the source address
/// (IPv4 or IPv6), which is also the key of the address-keyed indexes.
#[derive(Debug, Clone)]
pub struct LogEvent {
    pub timestamp: i64,
    pub user: String,
    pub ip_address: String,
    pub event_type: String,
}

/// The mathematical content of a `LogEvent`.
pub struct EventView {
    pub timestamp: i64,
    pub user: Seq<char>,
    pub ip: Seq<char>,
    pub kind: Seq<char>,
}

impl View for LogEvent {
    type V = EventView;

    open spec fn view(&self) -> EventView {
        EventView {
            timestamp: self.timestamp,
            user: self.user@,
            ip: self.ip_address@,
            kind: self.event_type@,
        }
    }
}

/// A detected anomaly, immutable once emitted.
#[derive(Debug, Clone, PartialEq, Eq)]
pub struct AnomalyReport {
    pub severity: u8,
    pub rule_name: String,
    pub user: String,
    pub detected_ip: String,
    pub trusted_ip: String,
    pub timestamp: i64,
    pub description: String,
}

/// The mathematical content of an `AnomalyReport`.
pub struct ReportView {
    pub severity: u8,
    pub rule_name: Seq<char>,
    pub user: Seq<char>,
    pub detected_ip: Seq<char>,
    pub trusted_ip: Seq<char>,
    pub timestamp: i64,
    pub description: Seq<char>,
}

impl View for AnomalyReport {
    type V = ReportView;

    open spec fn view(&self) -> ReportView {
        ReportView {
            severity: self.severity,
            rule_name: self.rule_name@,
            user: self.user@,
            detected_ip: self.detected_ip@,
            trusted_ip: self.trusted_ip@,
            timestamp: self.timestamp,
            description: self.description@,
        }
    }
}

/// Severity of a report lies in the band 1 to 10.
pub open spec fn severity_in_band(r: ReportView) -> bool {
    1 <= r.severity <= 10
}

} // verus!
