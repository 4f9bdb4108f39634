//! The rate-limit rule: sliding-window counters per principal and per
//! source address.
use crate::event::{AnomalyReport, EventView, LogEvent, ReportView};
use crate::text::{decimal, i64_text, signed_decimal, u64_text};
use crate::window::{stamps_of, window_after, WindowIndex};
use vstd::prelude::*;
use vstd::string::StringExecFns;

verus! {

/// Model of the rate limiter: both indexes and the configuration.
pub struct RateView {
    pub users: Map<Seq<char>, Seq<i64>>,
    pub ips: Map<Seq<char>, Seq<i64>>,
    pub window_seconds: i64,
    pub max_user_attempts: usize,
    pub max_ip_attempts: usize,
}

/// Severity of a rate report by the ratio `count / threshold`:
/// above 5 gives 10, above 3 gives 9, above 2 gives 8, else 7.
pub open spec fn rate_severity(count: nat, threshold: nat) -> u8 {
    if count > 5 * threshold {
        10
    } else if count > 3 * threshold {
        9
    } else if count > 2 * threshold {
        8
    } else {
        7
    }
}

pub open spec fn user_rate_rule() -> Seq<char> {
    "User Rate Limit Exceeded"@
}

pub open spec fn ip_rate_rule() -> Seq<char> {
    "IP Rate Limit Exceeded"@
}

pub open spec fn user_rate_description(
    ev: EventView,
    count: nat,
    w: i64,
    threshold: nat,
) -> Seq<char> {
    "User '"@ + ev.user + "' has "@ + decimal(count) + " login attempts in the last "@
        + signed_decimal(w as int) + " seconds (threshold: "@ + decimal(threshold)
        + "). Possible credential stuffing or brute force attack."@
}

pub open spec fn ip_rate_description(ev: EventView, count: nat, w: i64, threshold: nat) -> Seq<
    char,
> {
    "IP "@ + ev.ip + " has "@ + decimal(count) + " login attempts in the last "@
        + signed_decimal(w as int) + " seconds (threshold: "@ + decimal(threshold)
        + "). Possible distributed attack or compromised host."@
}

pub open spec fn user_rate_report(ev: EventView, count: nat, w: i64, threshold: nat) -> ReportView {
    ReportView {
        severity: rate_severity(count, threshold),
        rule_name: user_rate_rule(),
        user: ev.user,
        detected_ip: ev.ip,
        trusted_ip: Seq::empty(),
        timestamp: ev.timestamp,
        description: user_rate_description(ev, count, w, threshold),
    }
}

pub open spec fn ip_rate_report(ev: EventView, count: nat, w: i64, threshold: nat) -> ReportView {
    ReportView {
        severity: rate_severity(count, threshold),
        rule_name: ip_rate_rule(),
        user: ev.user,
        detected_ip: ev.ip,
        trusted_ip: Seq::empty(),
        timestamp: ev.timestamp,
        description: ip_rate_description(ev, count, w, threshold),
    }
}

/// The reports for an event given the post-insert counts of its principal
/// and of its address: a report for each count above its threshold,
/// the principal's first.
pub open spec fn rate_reports(
    ev: EventView,
    user_count: nat,
    ip_count: nat,
    w: i64,
    max_user: nat,
    max_ip: nat,
) -> Seq<ReportView> {
    let u = if user_count > max_user {
        seq![user_rate_report(ev, user_count, w, max_user)]
    } else {
        Seq::empty()
    };
    let i = if ip_count > max_ip {
        seq![ip_rate_report(ev, ip_count, w, max_ip)]
    } else {
        Seq::empty()
    };
    u + i
}

/// The principal's window list after recording `ev`.
pub open spec fn user_window_after(m: RateView, ev: EventView) -> Seq<i64> {
    window_after(stamps_of(m.users, ev.user), ev.timestamp, m.window_seconds)
}

/// The address's window list after recording `ev`.
pub open spec fn ip_window_after(m: RateView, ev: EventView) -> Seq<i64> {
    window_after(stamps_of(m.ips, ev.ip), ev.timestamp, m.window_seconds)
}

/// What the in-memory rule emits for `ev`.
pub open spec fn rate_outcome(m: RateView, ev: EventView) -> Seq<ReportView> {
    rate_reports(
        ev,
        user_window_after(m, ev).len(),
        ip_window_after(m, ev).len(),
        m.window_seconds,
        m.max_user_attempts as nat,
        m.max_ip_attempts as nat,
    )
}

/// The limiter after recording `ev` in both indexes.
pub open spec fn rate_after(m: RateView, ev: EventView) -> RateView {
    RateView {
        users: m.users.insert(ev.user, user_window_after(m, ev)),
        ips: m.ips.insert(ev.ip, ip_window_after(m, ev)),
        ..m
    }
}

/// Views of a list of reports.
pub open spec fn reports_view(rs: Seq<AnomalyReport>) -> Seq<ReportView> {
    rs.map_values(|r: AnomalyReport| r@)
}

/// Tracks login attempt rates to detect brute force attacks.
pub struct LoginRateLimiter {
    per_user_attempts: WindowIndex,
    per_ip_attempts: WindowIndex,
    window_seconds: i64,
    max_user_attempts: usize,
    max_ip_attempts: usize,
}

impl View for LoginRateLimiter {
    type V = RateView;

    closed spec fn view(&self) -> RateView {
        RateView {
            users: self.per_user_attempts@,
            ips: self.per_ip_attempts@,
            window_seconds: self.window_seconds,
            max_user_attempts: self.max_user_attempts,
            max_ip_attempts: self.max_ip_attempts,
        }
    }
}

fn severity_for(count: usize, threshold: usize) -> (r: u8)
    ensures
        r == rate_severity(count as nat, threshold as nat),
{
    let c = count as u128;
    let t = threshold as u128;
    if c > 5 * t {
        10
    } else if c > 3 * t {
        9
    } else if c > 2 * t {
        8
    } else {
        7
    }
}

fn describe_user_rate(event: &LogEvent, count: usize, w: i64, threshold: usize) -> (r: String)
    ensures
        r@ == user_rate_description(event@, count as nat, w, threshold as nat),
{
    let mut s = String::from_str("User '");
    s.append(event.user.as_str());
    s.append("' has ");
    s.append(u64_text(count as u64).as_str());
    s.append(" login attempts in the last ");
    s.append(i64_text(w).as_str());
    s.append(" seconds (threshold: ");
    s.append(u64_text(threshold as u64).as_str());
    s.append("). Possible credential stuffing or brute force attack.");
    s
}

fn describe_ip_rate(event: &LogEvent, count: usize, w: i64, threshold: usize) -> (r: String)
    ensures
        r@ == ip_rate_description(event@, count as nat, w, threshold as nat),
{
    let mut s = String::from_str("IP ");
    s.append(event.ip_address.as_str());
    s.append(" has ");
    s.append(u64_text(count as u64).as_str());
    s.append(" login attempts in the last ");
    s.append(i64_text(w).as_str());
    s.append(" seconds (threshold: ");
    s.append(u64_text(threshold as u64).as_str());
    s.append("). Possible distributed attack or compromised host.");
    s
}

/// Reports for `event` given the post-insert counts of its principal and of
/// its address, against the thresholds.
pub fn reports_for_counts(
    event: &LogEvent,
    user_count: usize,
    ip_count: usize,
    window_seconds: i64,
    max_user_attempts: usize,
    max_ip_attempts: usize,
) -> (r: Vec<AnomalyReport>)
    ensures
        reports_view(r@) == rate_reports(
            event@,
            user_count as nat,
            ip_count as nat,
            window_seconds,
            max_user_attempts as nat,
            max_ip_attempts as nat,
        ),
{
    let mut reports: Vec<AnomalyReport> = Vec::new();
    if user_count > max_user_attempts {
        reports.push(
            AnomalyReport {
                severity: severity_for(user_count, max_user_attempts),
                rule_name: String::from_str("User Rate Limit Exceeded"),
                user: event.user.clone(),
                detected_ip: event.ip_address.clone(),
                trusted_ip: String::new(),
                timestamp: event.timestamp,
                description: describe_user_rate(
                    event,
                    user_count,
                    window_seconds,
                    max_user_attempts,
                ),
            },
        );
    }
    if ip_count > max_ip_attempts {
        reports.push(
            AnomalyReport {
                severity: severity_for(ip_count, max_ip_attempts),
                rule_name: String::from_str("IP Rate Limit Exceeded"),
                user: event.user.clone(),
                detected_ip: event.ip_address.clone(),
                trusted_ip: String::new(),
                timestamp: event.timestamp,
                description: describe_ip_rate(event, ip_count, window_seconds, max_ip_attempts),
            },
        );
    }
    proof {
        assert(reports_view(reports@) =~= rate_reports(
            event@,
            user_count as nat,
            ip_count as nat,
            window_seconds,
            max_user_attempts as nat,
            max_ip_attempts as nat,
        ));
    }
    reports
}

impl LoginRateLimiter {
    pub closed spec fn wf(&self) -> bool {
        self.per_user_attempts.wf() && self.per_ip_attempts.wf()
    }

    /// A limiter with a 300 s window, 10 attempts per principal and 20 per address.
    pub fn new() -> (r: Self)
        ensures
            r.wf(),
            r@ == (RateView {
                users: Map::empty(),
                ips: Map::empty(),
                window_seconds: 300,
                max_user_attempts: 10,
                max_ip_attempts: 20,
            }),
    {
        Self::with_config(300, 10, 20)
    }

    /// A limiter with custom window and thresholds.
    pub fn with_config(window_seconds: i64, max_user_attempts: usize, max_ip_attempts: usize) -> (r:
        Self)
        ensures
            r.wf(),
            r@ == (RateView {
                users: Map::empty(),
                ips: Map::empty(),
                window_seconds,
                max_user_attempts,
                max_ip_attempts,
            }),
    {
        LoginRateLimiter {
            per_user_attempts: WindowIndex::new(),
            per_ip_attempts: WindowIndex::new(),
            window_seconds,
            max_user_attempts,
            max_ip_attempts,
        }
    }

    /// Records the attempt in both indexes and returns the reports for the
    /// thresholds it exceeds: zero, one or two, the principal's first.
    pub fn check_rate_limit(&mut self, event: &LogEvent) -> (r: Vec<AnomalyReport>)
        requires
            old(self).wf(),
        ensures
            final(self).wf(),
            final(self)@ == rate_after(old(self)@, event@),
            reports_view(r@) == rate_outcome(old(self)@, event@),
    {
        let user_count = self.per_user_attempts.record(
            &event.user,
            event.timestamp,
            self.window_seconds,
        );
        let ip_count = self.per_ip_attempts.record(
            &event.ip_address,
            event.timestamp,
            self.window_seconds,
        );
        reports_for_counts(
            event,
            user_count,
            ip_count,
            self.window_seconds,
            self.max_user_attempts,
            self.max_ip_attempts,
        )
    }

    /// Durable mode: the attempt was persisted first and the store counted
    /// the attempts in the window (this one included). The thresholds are
    /// held against those counts; the in-memory indexes are updated as a cache.
    pub fn check_rate_limit_counted(
        &mut self,
        event: &LogEvent,
        stored_user_count: usize,
        stored_ip_count: usize,
    ) -> (r: Vec<AnomalyReport>)
        requires
            old(self).wf(),
        ensures
            final(self).wf(),
            final(self)@ == rate_after(old(self)@, event@),
            reports_view(r@) == rate_reports(
                event@,
                stored_user_count as nat,
                stored_ip_count as nat,
                old(self)@.window_seconds,
                old(self)@.max_user_attempts as nat,
                old(self)@.max_ip_attempts as nat,
            ),
    {
        let _ = self.per_user_attempts.record(&event.user, event.timestamp, self.window_seconds);
        let _ = self.per_ip_attempts.record(
            &event.ip_address,
            event.timestamp,
            self.window_seconds,
        );
        reports_for_counts(
            event,
            stored_user_count,
            stored_ip_count,
            self.window_seconds,
            self.max_user_attempts,
            self.max_ip_attempts,
        )
    }

    /// Number of attempts currently stored for a principal.
    pub fn get_user_attempt_count(&self, user: &str) -> (r: usize)
        ensures
            r == stamps_of(self@.users, user@).len(),
    {
        self.per_user_attempts.count(user)
    }

    /// Number of attempts currently stored for an address.
    pub fn get_ip_attempt_count(&self, ip: &str) -> (r: usize)
        ensures
            r == stamps_of(self@.ips, ip@).len(),
    {
        self.per_ip_attempts.count(ip)
    }

    pub fn window_seconds(&self) -> (r: i64)
        ensures
            r == self@.window_seconds,
    {
        self.window_seconds
    }

    /// Forgets every attempt.
    pub fn clear_all(&mut self)
        ensures
            final(self).wf(),
            final(self)@ == (RateView { users: Map::empty(), ips: Map::empty(), ..old(self)@ }),
    {
        self.per_user_attempts.clear();
        self.per_ip_attempts.clear();
    }

    /// Evicts every attempt at or before `current_timestamp - window` and
    /// drops the keys left with none.
    pub fn prune_stale(&mut self, current_timestamp: i64)
        requires
            old(self).wf(),
        ensures
            final(self).wf(),
            final(self)@ == (RateView {
                users: crate::window::pruned_index(
                    old(self)@.users,
                    current_timestamp - old(self)@.window_seconds,
                ),
                ips: crate::window::pruned_index(
                    old(self)@.ips,
                    current_timestamp - old(self)@.window_seconds,
                ),
                ..old(self)@
            }),
    {
        let cutoff: i128 = current_timestamp as i128 - self.window_seconds as i128;
        self.per_user_attempts.prune(cutoff);
        self.per_ip_attempts.prune(cutoff);
    }
}

impl Default for LoginRateLimiter {
    /// Same as `LoginRateLimiter::new`.
    fn default() -> (r: Self)
        ensures
            r.wf(),
            r@ == (RateView {
                users: Map::empty(),
                ips: Map::empty(),
                window_seconds: 300,
                max_user_attempts: 10,
                max_ip_attempts: 20,
            }),
    {
        Self::new()
    }
}

} // verus!
